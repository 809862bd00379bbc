//! A decoded graph and the read-only queries over it.
use vstd::prelude::*;
use crate::decode::{container_of, decodebuffer, zstd_decodes, zstd_stream, Container};
use crate::error::DecodeError;
use crate::graph_file::properties::{Property, PropertyMapType, PropertyView};
use crate::graph_file::{parse_graph, total_len, GraphFile, GraphFileView};

verus! {

/// A decoded graph, with queries over its vertices, edges and property maps.
#[derive(Debug, Clone)]
pub struct Graph {
    pub file: GraphFile,
}

/// The graph that the buffer `s` decodes to: `s` is decompressed as its signature
/// says, then parsed.
pub open spec fn decodes_to(s: Seq<u8>, g: GraphFileView) -> bool {
    match container_of(s) {
        Container::Plain => parse_graph(s) == Ok::<GraphFileView, DecodeError>(g),
        Container::Zstd => parse_graph(zstd_stream(s, 0)) == Ok::<GraphFileView, DecodeError>(g),
        Container::Unsupported(_) => false,
    }
}

/// Whether the buffer `s` decodes to a graph: its container is plain or zstd, a zstd
/// stream's frames all decode, and the plain bytes parse.
pub open spec fn decode_succeeds(s: Seq<u8>) -> bool {
    match container_of(s) {
        Container::Plain => parse_graph(s) is Ok,
        Container::Zstd => zstd_decodes(s, 0) && parse_graph(zstd_stream(s, 0)) is Ok,
        Container::Unsupported(_) => false,
    }
}

/// Decoding is deterministic: equal buffers both decode or both fail, and when they
/// decode it is to the same graph, with the same counts, adjacency lists, property
/// values and property order.
pub proof fn lemma_decode_deterministic(
    a: Seq<u8>,
    b: Seq<u8>,
    ga: GraphFileView,
    gb: GraphFileView,
)
    requires
        a == b,
        decodes_to(a, ga),
        decodes_to(b, gb),
    ensures
        ga == gb,
        decode_succeeds(a) == decode_succeeds(b),
{
}

/// The neighbor ids of all lists of `adj`, in order.
pub open spec fn flatten(adj: Seq<Seq<u64>>) -> Seq<u64>
    decreases adj.len(),
{
    if adj.len() == 0 {
        Seq::empty()
    } else {
        flatten(adj.drop_last()) + adj.last()
    }
}

/// For each entry of `flatten(adj)`, the index of the list it comes from.
pub open spec fn edge_sources(adj: Seq<Seq<u64>>) -> Seq<u64>
    decreases adj.len(),
{
    if adj.len() == 0 {
        Seq::empty()
    } else {
        edge_sources(adj.drop_last()) + Seq::new(adj.last().len(), |k: int| (adj.len() - 1) as u64)
    }
}

/// The indices of the lists of `adj` that hold `node`, in increasing order.
pub open spec fn in_list(adj: Seq<Seq<u64>>, node: u64) -> Seq<u64>
    decreases adj.len(),
{
    if adj.len() == 0 {
        Seq::empty()
    } else if adj.last().contains(node) {
        in_list(adj.drop_last(), node).push((adj.len() - 1) as u64)
    } else {
        in_list(adj.drop_last(), node)
    }
}

/// Whether `p` is called `name` and, if `filter` names a map type, has it.
pub open spec fn property_matches(
    p: PropertyView,
    name: Seq<char>,
    filter: Option<PropertyMapType>,
) -> bool {
    &&& p.name == name
    &&& filter matches Some(m) ==> p.map_type == m
}

/// Whether `i` is the first index of `ps` whose property matches.
pub open spec fn first_match_at(
    ps: Seq<PropertyView>,
    name: Seq<char>,
    filter: Option<PropertyMapType>,
    i: int,
) -> bool {
    &&& 0 <= i < ps.len()
    &&& property_matches(ps[i], name, filter)
    &&& forall|j: int| 0 <= j < i ==> !property_matches(#[trigger] ps[j], name, filter)
}

/// The names of the properties of `ps` that `filter` admits, in order.
pub open spec fn names_of(ps: Seq<PropertyView>, filter: Option<PropertyMapType>) -> Seq<Seq<char>>
    decreases ps.len(),
{
    if ps.len() == 0 {
        Seq::empty()
    } else if filter matches Some(m) && ps.last().map_type != m {
        names_of(ps.drop_last(), filter)
    } else {
        names_of(ps.drop_last(), filter).push(ps.last().name)
    }
}

/// Relies on `format!`: the message of a failed property lookup.
#[verifier::external_body]
fn missing_property(name: &str) -> String {
    format!("Property '{}' not found", name)
}

impl Graph {
    /// Decompresses and decodes a gt buffer.
    ///
    /// It succeeds exactly when `decode_succeeds(data@)`, and the graph is then the
    /// one `data@` decodes to. Otherwise the error is the one that the first failing
    /// step gives: the container, the zstd frames, then the gt parser.
    pub fn try_from(data: Vec<u8>) -> (r: Result<Graph, DecodeError>)
        ensures
            (r is Ok) == decode_succeeds(data@),
            r matches Ok(g) ==> decodes_to(data@, g.file@),
            r matches Ok(g) ==> g.file@.out_neighbors.len() == g.file.num_vertices
                && g.file.num_edges == total_len(g.file@.out_neighbors),
            match container_of(data@) {
                Container::Plain => match r {
                    Ok(g) => parse_graph(data@) == Ok::<GraphFileView, DecodeError>(g.file@),
                    Err(e) => parse_graph(data@) == Err::<GraphFileView, DecodeError>(e),
                },
                Container::Zstd => if zstd_decodes(data@, 0) {
                    match r {
                        Ok(g) => parse_graph(zstd_stream(data@, 0)) == Ok::<GraphFileView, DecodeError>(
                            g.file@,
                        ),
                        Err(e) => parse_graph(zstd_stream(data@, 0)) == Err::<
                            GraphFileView,
                            DecodeError,
                        >(e),
                    }
                } else {
                    r matches Err(e) && e is DecompressionFailed
                },
                Container::Unsupported(c) => r matches Err(e) && e
                    == DecodeError::CompressionUnsupported(c),
            },
    {
        let plain = decodebuffer(data.as_slice())?;
        let file = GraphFile::try_from(plain.as_slice())?;
        Ok(Graph { file })
    }

    pub fn num_vertices(&self) -> (r: u64)
        ensures
            r == self.file.num_vertices,
    {
        self.file.num_vertices
    }

    pub fn num_edges(&self) -> (r: u64)
        ensures
            r == self.file.num_edges,
    {
        self.file.num_edges
    }

    pub fn directed(&self) -> (r: bool)
        ensures
            r == self.file.directed,
    {
        self.file.directed
    }

    /// The vertex ids `0 .. num_vertices`.
    pub fn vertices(&self) -> (r: Vec<u64>)
        ensures
            r@ == Seq::new(self.file.num_vertices as nat, |i: int| i as u64),
    {
        let n = self.file.num_vertices;
        let mut out: Vec<u64> = Vec::new();
        let mut i: u64 = 0;
        while i < n
            invariant
                i <= n,
                out@ == Seq::new(i as nat, |k: int| k as u64),
            decreases n - i,
        {
            out.push(i);
            i = i + 1;
            assert(out@ =~= Seq::new(i as nat, |k: int| k as u64));
        }
        out
    }

    /// All edges as `(sources, targets)`: one entry per neighbor id, in adjacency order.
    pub fn edges(&self) -> (r: (Vec<u64>, Vec<u64>))
        ensures
            r.0@ == edge_sources(self.file.out_neighbors.deep_view()),
            r.1@ == flatten(self.file.out_neighbors.deep_view()),
    {
        let adj = &self.file.out_neighbors;
        let ghost all = adj.deep_view();
        let mut from: Vec<u64> = Vec::new();
        let mut to: Vec<u64> = Vec::new();
        let mut i: usize = 0;
        while i < adj.len()
            invariant
                i <= adj.len(),
                all == adj.deep_view(),
                from@ == edge_sources(all.subrange(0, i as int)),
                to@ == flatten(all.subrange(0, i as int)),
            decreases adj.len() - i,
        {
            let list = &adj[i];
            assert(list@ == all[i as int]);
            let ghost from0 = from@;
            let ghost to0 = to@;
            let mut j: usize = 0;
            while j < list.len()
                invariant
                    j <= list.len(),
                    i < adj.len(),
                    from@ == from0 + Seq::new(j as nat, |k: int| i as u64),
                    to@ == to0 + list@.subrange(0, j as int),
                decreases list.len() - j,
            {
                from.push(i as u64);
                to.push(list[j]);
                j = j + 1;
                assert(from@ =~= from0 + Seq::new(j as nat, |k: int| i as u64));
                assert(to@ =~= to0 + list@.subrange(0, j as int));
            }
            let ghost next = all.subrange(0, i + 1);
            assert(next.drop_last() =~= all.subrange(0, i as int));
            assert(next.last() == list@);
            assert(list@.subrange(0, j as int) =~= list@);
            assert(from@ =~= edge_sources(next));
            i = i + 1;
        }
        assert(all.subrange(0, i as int) =~= all);
        (from, to)
    }

    /// The out-neighbors of `node`.
    pub fn out_neighbors(&self, node: u64) -> (r: &[u64])
        requires
            node < self.file.out_neighbors.len(),
        ensures
            r@ == self.file.out_neighbors@[node as int]@,
    {
        self.file.out_neighbors[node as usize].as_slice()
    }

    /// The vertices with `node` among their out-neighbors, in increasing order.
    pub fn in_neighbors(&self, node: u64) -> (r: Vec<u64>)
        ensures
            r@ == in_list(self.file.out_neighbors.deep_view(), node),
    {
        let adj = &self.file.out_neighbors;
        let ghost all = adj.deep_view();
        let mut out: Vec<u64> = Vec::new();
        let mut i: usize = 0;
        while i < adj.len()
            invariant
                i <= adj.len(),
                all == adj.deep_view(),
                out@ == in_list(all.subrange(0, i as int), node),
            decreases adj.len() - i,
        {
            let list = &adj[i];
            assert(list@ == all[i as int]);
            let mut found = false;
            let mut j: usize = 0;
            while j < list.len()
                invariant
                    j <= list.len(),
                    found == list@.subrange(0, j as int).contains(node),
                decreases list.len() - j,
            {
                if list[j] == node {
                    assert(list@.subrange(0, j + 1)[j as int] == node);
                    found = true;
                } else if found {
                    proof {
                        let k = choose|k: int| 0 <= k < j && list@.subrange(0, j as int)[k] == node;
                        assert(list@.subrange(0, j + 1)[k] == node);
                    }
                } else {
                    assert forall|k: int| 0 <= k < j + 1 implies #[trigger] list@.subrange(0, j + 1)[k] != node by {
                        if k < j {
                            assert(list@.subrange(0, j as int)[k] == list@.subrange(0, j + 1)[k]);
                        }
                    }
                }
                j = j + 1;
            }
            assert(list@.subrange(0, j as int) =~= list@);
            let ghost next = all.subrange(0, i + 1);
            assert(next.drop_last() =~= all.subrange(0, i as int));
            assert(next.last() == list@);
            if found {
                out.push(i as u64);
            }
            i = i + 1;
        }
        assert(all.subrange(0, i as int) =~= all);
        out
    }

    /// The first declared property called `name` and, if `property_type` is given, of
    /// that map type. A property of another map type never matches a filter.
    pub fn property(
        &mut self,
        name: String,
        property_type: Option<PropertyMapType>,
    ) -> (r: Result<&mut Property, String>)
        ensures
            final(self).file.num_vertices == old(self).file.num_vertices,
            final(self).file.num_edges == old(self).file.num_edges,
            final(self).file.directed == old(self).file.directed,
            final(self).file.out_neighbors == old(self).file.out_neighbors,
            match r {
                Ok(p) => exists|i: int|
                    first_match_at(old(self).file.properties.deep_view(), name@, property_type, i)
                        && *p == old(self).file.properties@[i] && final(self).file.properties@
                        == old(self).file.properties@.update(i, *final(p)),
                Err(_) => *final(self) == *old(self) && forall|i: int|
                    0 <= i < old(self).file.properties.len() ==> !property_matches(
                        #[trigger] old(self).file.properties.deep_view()[i],
                        name@,
                        property_type,
                    ),
            },
    {
        let ghost ps = self.file.properties.deep_view();
        let mut i: usize = 0;
        while i < self.file.properties.len()
            invariant
                i <= self.file.properties.len(),
                ps == self.file.properties.deep_view(),
                self == old(self),
                forall|j: int| 0 <= j < i ==> !property_matches(#[trigger] ps[j], name@, property_type),
            decreases self.file.properties.len() - i,
        {
            let p = &self.file.properties[i];
            assert(ps[i as int] == p.deep_view());
            let hit = p.name == name && match property_type {
                Some(m) => p.map_type == m,
                None => true,
            };
            if hit {
                assert(first_match_at(ps, name@, property_type, i as int));
                return Ok(&mut self.file.properties[i]);
            }
            i = i + 1;
        }
        Err(missing_property(name.as_str()))
    }

    /// The first declared graph property called `name`.
    pub fn graph_property(&mut self, name: String) -> (r: Result<&mut Property, String>)
        ensures
            final(self).file.num_vertices == old(self).file.num_vertices,
            final(self).file.num_edges == old(self).file.num_edges,
            final(self).file.directed == old(self).file.directed,
            final(self).file.out_neighbors == old(self).file.out_neighbors,
            match r {
                Ok(p) => exists|i: int|
                    first_match_at(
                        old(self).file.properties.deep_view(),
                        name@,
                        Some(PropertyMapType::Graph),
                        i,
                    ) && *p == old(self).file.properties@[i] && final(self).file.properties@
                        == old(self).file.properties@.update(i, *final(p)),
                Err(_) => *final(self) == *old(self) && forall|i: int|
                    0 <= i < old(self).file.properties.len() ==> !property_matches(
                        #[trigger] old(self).file.properties.deep_view()[i],
                        name@,
                        Some(PropertyMapType::Graph),
                    ),
            },
    {
        self.property(name, Some(PropertyMapType::Graph))
    }

    /// The first declared vertex property called `name`.
    pub fn vertex_property(&mut self, name: String) -> (r: Result<&mut Property, String>)
        ensures
            final(self).file.num_vertices == old(self).file.num_vertices,
            final(self).file.num_edges == old(self).file.num_edges,
            final(self).file.directed == old(self).file.directed,
            final(self).file.out_neighbors == old(self).file.out_neighbors,
            match r {
                Ok(p) => exists|i: int|
                    first_match_at(
                        old(self).file.properties.deep_view(),
                        name@,
                        Some(PropertyMapType::Vertex),
                        i,
                    ) && *p == old(self).file.properties@[i] && final(self).file.properties@
                        == old(self).file.properties@.update(i, *final(p)),
                Err(_) => *final(self) == *old(self) && forall|i: int|
                    0 <= i < old(self).file.properties.len() ==> !property_matches(
                        #[trigger] old(self).file.properties.deep_view()[i],
                        name@,
                        Some(PropertyMapType::Vertex),
                    ),
            },
    {
        self.property(name, Some(PropertyMapType::Vertex))
    }

    /// The first declared edge property called `name`.
    pub fn edge_property(&mut self, name: String) -> (r: Result<&mut Property, String>)
        ensures
            final(self).file.num_vertices == old(self).file.num_vertices,
            final(self).file.num_edges == old(self).file.num_edges,
            final(self).file.directed == old(self).file.directed,
            final(self).file.out_neighbors == old(self).file.out_neighbors,
            match r {
                Ok(p) => exists|i: int|
                    first_match_at(
                        old(self).file.properties.deep_view(),
                        name@,
                        Some(PropertyMapType::Edge),
                        i,
                    ) && *p == old(self).file.properties@[i] && final(self).file.properties@
                        == old(self).file.properties@.update(i, *final(p)),
                Err(_) => *final(self) == *old(self) && forall|i: int|
                    0 <= i < old(self).file.properties.len() ==> !property_matches(
                        #[trigger] old(self).file.properties.deep_view()[i],
                        name@,
                        Some(PropertyMapType::Edge),
                    ),
            },
    {
        self.property(name, Some(PropertyMapType::Edge))
    }

    /// The names of the properties that `property_type` admits (all, if `None`), in
    /// declaration order; a name may occur more than once.
    pub fn property_names(&self, property_type: Option<PropertyMapType>) -> (r: Vec<String>)
        ensures
            r.deep_view() == names_of(self.file.properties.deep_view(), property_type),
    {
        let ps = &self.file.properties;
        let ghost all = ps.deep_view();
        let mut out: Vec<String> = Vec::new();
        let mut i: usize = 0;
        while i < ps.len()
            invariant
                i <= ps.len(),
                all == ps.deep_view(),
                out.deep_view() == names_of(all.subrange(0, i as int), property_type),
            decreases ps.len() - i,
        {
            let p = &ps[i];
            assert(all[i as int] == p.deep_view());
            let ghost next = all.subrange(0, i + 1);
            assert(next.drop_last() =~= all.subrange(0, i as int));
            let keep = match property_type {
                Some(m) => p.map_type == m,
                None => true,
            };
            if keep {
                let ghost before = out.deep_view();
                out.push(p.name.clone());
                assert(out.deep_view() =~= before.push(p.name@));
            }
            i = i + 1;
        }
        assert(all.subrange(0, i as int) =~= all);
        out
    }

    /// The names of the graph properties, in declaration order.
    pub fn graph_property_names(&self) -> (r: Vec<String>)
        ensures
            r.deep_view() == names_of(self.file.properties.deep_view(), Some(PropertyMapType::Graph)),
    {
        self.property_names(Some(PropertyMapType::Graph))
    }

    /// The names of the vertex properties, in declaration order.
    pub fn vertex_property_names(&self) -> (r: Vec<String>)
        ensures
            r.deep_view() == names_of(self.file.properties.deep_view(), Some(PropertyMapType::Vertex)),
    {
        self.property_names(Some(PropertyMapType::Vertex))
    }

    /// The names of the edge properties, in declaration order.
    pub fn edge_property_names(&self) -> (r: Vec<String>)
        ensures
            r.deep_view() == names_of(self.file.properties.deep_view(), Some(PropertyMapType::Edge)),
    {
        self.property_names(Some(PropertyMapType::Edge))
    }

    /// An empty graph: no vertices, no edges, no properties.
    pub fn new() -> (r: Graph)
        ensures
            r.file.num_vertices == 0,
            r.file.num_edges == 0,
            !r.file.directed,
            r.file.out_neighbors@.len() == 0,
            r.file.properties@.len() == 0,
    {
        Graph { file: GraphFile::default() }
    }
}

impl Default for Graph {
    fn default() -> (r: Graph)
        ensures
            r.file.num_vertices == 0,
            r.file.num_edges == 0,
            !r.file.directed,
            r.file.out_neighbors@.len() == 0,
            r.file.properties@.len() == 0,
    {
        Graph::new()
    }
}

impl From<GraphFile> for Graph {
    fn from(file: GraphFile) -> (r: Graph)
        ensures
            r.file == file,
    {
        Graph { file }
    }
}

impl vstd::std_specs::convert::FromSpecImpl<GraphFile> for Graph {
    open spec fn obeys_from_spec() -> bool {
        true
    }

    open spec fn from_spec(file: GraphFile) -> Graph {
        Graph { file }
    }
}

} // verus!
