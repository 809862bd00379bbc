//! The decoded gt file and the parser of its header and adjacency lists.
use vstd::prelude::*;
use crate::bytes::{
    el_list, lemma_take_many_len, read_list, read_many, read_u64, read_u8, read_uint, reads_like,
    take_many, take_u64, take_u8, take_uint,
};
use crate::error::DecodeError;
use crate::graph_file::properties::{
    el_property, read_property_at, read_text, take_text, Property, PropertyView,
};

pub mod properties;

verus! {

/// A graph in the gt format, as decoded: header fields, one adjacency list per
/// vertex, and the property maps in the order the file declares them.
#[derive(Debug, Clone)]
pub struct GraphFile {
    pub version_number: u8,
    pub endianness: u8,
    pub comment: String,
    pub directed: bool,
    pub num_vertices: u64,
    pub num_edges: u64,
    pub out_neighbors: Vec<Vec<u64>>,
    pub properties: Vec<Property>,
}

/// The mathematical content of a `GraphFile`.
pub struct GraphFileView {
    pub version_number: u8,
    pub endianness: u8,
    pub comment: Seq<char>,
    pub directed: bool,
    pub num_vertices: u64,
    pub num_edges: u64,
    pub out_neighbors: Seq<Seq<u64>>,
    pub properties: Seq<PropertyView>,
}

impl View for GraphFile {
    type V = GraphFileView;

    open spec fn view(&self) -> GraphFileView {
        GraphFileView {
            version_number: self.version_number,
            endianness: self.endianness,
            comment: self.comment@,
            directed: self.directed,
            num_vertices: self.num_vertices,
            num_edges: self.num_edges,
            out_neighbors: self.out_neighbors.deep_view(),
            properties: self.properties.deep_view(),
        }
    }
}

/// The six bytes every gt file starts with.
pub open spec fn gt_magic() -> Seq<u8> {
    seq![0xe2u8, 0x9bu8, 0xbeu8, 0x20u8, 0x67u8, 0x74u8]
}

/// Width in bytes of every neighbor id of a graph with `num_vertices` vertices.
pub open spec fn id_width(num_vertices: u64) -> int {
    if num_vertices <= 0xff {
        1
    } else if num_vertices <= 0xffff {
        2
    } else if num_vertices <= 0xffff_ffff {
        4
    } else {
        8
    }
}

/// A neighbor id `w` bytes wide.
pub open spec fn el_id(w: int) -> spec_fn(Seq<u8>, int) -> Option<(u64, int)> {
    |s: Seq<u8>, p: int| take_uint(s, p, w)
}

/// The adjacency lists of `num_vertices` vertices: for each, a 64-bit neighbor count
/// and then that many ids, all of the one width that `num_vertices` fixes.
pub open spec fn take_adjacency(
    s: Seq<u8>,
    p: int,
    num_vertices: u64,
) -> Option<(Seq<Seq<u64>>, int)> {
    take_many(s, p, num_vertices as nat, el_list(el_id(id_width(num_vertices))))
}

/// The sum of the lengths of the lists in `adj`.
pub open spec fn total_len(adj: Seq<Seq<u64>>) -> nat
    decreases adj.len(),
{
    if adj.len() == 0 {
        0
    } else {
        total_len(adj.drop_last()) + adj.last().len()
    }
}

/// The graph that the plain (decompressed) gt bytes `s` decode to, or the error
/// that the first bad field gives. Bytes after the last property are ignored.
///
/// Neighbor ids are deliberately not checked against the vertex count, and property
/// lengths are not checked beyond the cardinality their map type fixes: such files
/// decode as they stand, as with the reference decoder.
pub open spec fn parse_graph(s: Seq<u8>) -> Result<GraphFileView, DecodeError> {
    if s.len() < 14 || s.subrange(0, 6) != gt_magic() || s[6] != 1 || s[7] != 0 {
        Err(DecodeError::MalformedHeader)
    } else {
        match take_text(s, 8) {
            None => Err(DecodeError::MalformedHeader),
            Some((comment, p1)) => match take_u8(s, p1) {
                None => Err(DecodeError::MalformedHeader),
                Some((d, p2)) => if d > 1 {
                    Err(DecodeError::MalformedHeader)
                } else {
                    match take_u64(s, p2) {
                        None => Err(DecodeError::MalformedHeader),
                        Some((n, p3)) => match take_adjacency(s, p3, n) {
                            None => Err(DecodeError::MalformedAdjacency),
                            Some((adj, p4)) => match take_u64(s, p4) {
                                None => Err(DecodeError::MalformedProperty),
                                Some((np, p5)) => match take_many(
                                    s,
                                    p5,
                                    np as nat,
                                    el_property(n, total_len(adj) as u64),
                                ) {
                                    None => Err(DecodeError::MalformedProperty),
                                    Some((props, _)) => Ok(
                                        GraphFileView {
                                            version_number: 1,
                                            endianness: 0,
                                            comment,
                                            directed: d == 1,
                                            num_vertices: n,
                                            num_edges: total_len(adj) as u64,
                                            out_neighbors: adj,
                                            properties: props,
                                        },
                                    ),
                                },
                            },
                        },
                    }
                },
            },
        }
    }
}

/// The width in bytes of the neighbor ids of a graph with `num_vertices` vertices.
pub fn neighbor_id_width(num_vertices: u64) -> (w: usize)
    ensures
        w == id_width(num_vertices),
{
    if num_vertices <= 0xff {
        1
    } else if num_vertices <= 0xffff {
        2
    } else if num_vertices <= 0xffff_ffff {
        4
    } else {
        8
    }
}

proof fn lemma_ids_span(s: Seq<u8>, p: int, k: nat, w: int)
    requires
        1 <= w,
        take_many(s, p, k, el_id(w)) is Some,
    ensures
        take_many(s, p, k, el_id(w))->Some_0.0.len() == k,
        take_many(s, p, k, el_id(w))->Some_0.1 >= p + k,
    decreases k,
{
    if k > 0 {
        lemma_ids_span(s, p, (k - 1) as nat, w);
    }
}

/// Reads one adjacency list: a 64-bit count, then that many ids `w` bytes wide.
fn read_neighbors(s: &[u8], p: usize, w: usize) -> (r: Option<(Vec<u64>, usize)>)
    requires
        p <= s.len(),
        1 <= w <= 8,
    ensures
        reads_like(s@, p, r, el_list(el_id(w as int))),
        r matches Some((ids, q)) ==> ids.len() <= q - p,
{
    let read_id = |s: &[u8], q: usize| -> (r: Option<(u64, usize)>)
        requires
            q <= s.len(),
            1 <= w <= 8,
        ensures
            reads_like(s@, q, r, el_id(w as int)),
        { read_uint(s, q, w) };
    let r = read_list(s, p, &read_id, Ghost(el_id(w as int)));
    proof {
        if r is Some {
            let ids = r->Some_0.0;
            let (n, q0) = take_u64(s@, p as int)->Some_0;
            lemma_ids_span(s@, q0, n as nat, w as int);
            assert(ids@.len() == ids.deep_view().len());
        }
    }
    r
}

/// Reads the adjacency lists of `num_vertices` vertices at `p`, and the sum of
/// their lengths. Every neighbor id is read with the one width
/// `neighbor_id_width(num_vertices)`, whatever the ids are.
pub fn get_out_neighbors(
    s: &[u8],
    p: usize,
    num_vertices: u64,
) -> (r: Option<(Vec<Vec<u64>>, u64, usize)>)
    requires
        p <= s.len(),
    ensures
        match r {
            Some((adj, edges, q)) => take_adjacency(s@, p as int, num_vertices) == Some(
                (adj.deep_view(), q as int),
            ) && edges == total_len(adj.deep_view()) && q <= s.len(),
            None => take_adjacency(s@, p as int, num_vertices) is None,
        },
{
    let w = neighbor_id_width(num_vertices);
    let ghost el = el_list(el_id(w as int));
    let mut out: Vec<Vec<u64>> = Vec::new();
    let mut edges: u64 = 0;
    let mut cur: usize = p;
    let mut i: u64 = 0;
    while i < num_vertices
        invariant
            i <= num_vertices,
            p <= cur <= s.len(),
            1 <= w <= 8,
            w == id_width(num_vertices),
            el == el_list(el_id(w as int)),
            take_many(s@, p as int, i as nat, el) == Some((out.deep_view(), cur as int)),
            edges == total_len(out.deep_view()),
            edges <= cur - p,
        decreases num_vertices - i,
    {
        match read_neighbors(s, cur, w) {
            Some((ids, q)) => {
                let ghost before = out.deep_view();
                let len = ids.len();
                assert(ids@.len() == ids.deep_view().len());
                out.push(ids);
                assert(out.deep_view() =~= before.push(ids.deep_view()));
                assert(out.deep_view().drop_last() =~= before);
                edges = edges + len as u64;
                cur = q;
                i = i + 1;
            },
            None => {
                proof {
                    crate::bytes::lemma_take_many_fails(s@, p as int, (i + 1) as nat, num_vertices as nat, el);
                }
                return None;
            },
        }
    }
    Some((out, edges, cur))
}

impl GraphFile {
    /// Decodes plain (decompressed) gt bytes.
    ///
    /// The result is exactly `parse_graph(file@)`: the decoded graph, or the error of
    /// the first bad or missing field. No partly decoded graph is ever returned.
    /// Neighbor ids are not checked against the vertex count.
    pub fn try_from(file: &[u8]) -> (r: Result<GraphFile, DecodeError>)
        ensures
            match r {
                Ok(g) => parse_graph(file@) == Ok::<GraphFileView, DecodeError>(g@),
                Err(e) => parse_graph(file@) == Err::<GraphFileView, DecodeError>(e),
            },
            r matches Ok(g) ==> g@.out_neighbors.len() == g.num_vertices && g.num_edges
                == total_len(g@.out_neighbors),
    {
        if file.len() < 14 {
            return Err(DecodeError::MalformedHeader);
        }
        let magic_ok = file[0] == 0xe2 && file[1] == 0x9b && file[2] == 0xbe && file[3] == 0x20
            && file[4] == 0x67 && file[5] == 0x74;
        proof {
            let head = file@.subrange(0, 6);
            if magic_ok {
                assert(head =~= gt_magic());
            } else {
                assert(head[0] == file@[0] && head[1] == file@[1] && head[2] == file@[2]);
                assert(head[3] == file@[3] && head[4] == file@[4] && head[5] == file@[5]);
                assert(gt_magic()[0] == 0xe2 && gt_magic()[1] == 0x9b && gt_magic()[2] == 0xbe);
                assert(gt_magic()[3] == 0x20 && gt_magic()[4] == 0x67 && gt_magic()[5] == 0x74);
            }
        }
        if !magic_ok {
            return Err(DecodeError::MalformedHeader);
        }
        let version_number = file[6];
        if version_number != 1 {
            return Err(DecodeError::MalformedHeader);
        }
        let endianness = file[7];
        if endianness != 0 {
            return Err(DecodeError::MalformedHeader);
        }
        let (comment, p1) = match read_text(file, 8) {
            Some(x) => x,
            None => return Err(DecodeError::MalformedHeader),
        };
        let (directed, p2) = match read_u8(file, p1) {
            Some(x) => x,
            None => return Err(DecodeError::MalformedHeader),
        };
        if directed > 1 {
            return Err(DecodeError::MalformedHeader);
        }
        let (num_vertices, p3) = match read_u64(file, p2) {
            Some(x) => x,
            None => return Err(DecodeError::MalformedHeader),
        };
        let (out_neighbors, num_edges, p4) = match get_out_neighbors(file, p3, num_vertices) {
            Some(x) => x,
            None => return Err(DecodeError::MalformedAdjacency),
        };
        let (num_properties, p5) = match read_u64(file, p4) {
            Some(x) => x,
            None => return Err(DecodeError::MalformedProperty),
        };
        let read_one = |s: &[u8], q: usize| -> (r: Option<(Property, usize)>)
            requires
                q <= s.len(),
            ensures
                reads_like(s@, q, r, el_property(num_vertices, num_edges)),
            { read_property_at(s, q, num_vertices, num_edges) };
        let properties = match read_many(
            file,
            p5,
            num_properties,
            &read_one,
            Ghost(el_property(num_vertices, num_edges)),
        ) {
            Some((props, _)) => props,
            None => return Err(DecodeError::MalformedProperty),
        };
        let g = GraphFile {
            version_number,
            endianness,
            comment,
            directed: directed == 1,
            num_vertices,
            num_edges,
            out_neighbors,
            properties,
        };
        proof {
            lemma_counts_agree(file@);
        }
        Ok(g)
    }
}

proof fn lemma_adjacency_span(s: Seq<u8>, p: int, n: nat, w: int)
    requires
        1 <= w,
        take_many(s, p, n, el_list(el_id(w))) is Some,
    ensures
        total_len(take_many(s, p, n, el_list(el_id(w)))->Some_0.0) <= take_many(
            s,
            p,
            n,
            el_list(el_id(w)),
        )->Some_0.1 - p,
    decreases n,
{
    if n > 0 {
        let (adj, q) = take_many(s, p, (n - 1) as nat, el_list(el_id(w)))->Some_0;
        lemma_adjacency_span(s, p, (n - 1) as nat, w);
        let (k, q0) = take_u64(s, q)->Some_0;
        lemma_ids_span(s, q0, k as nat, w);
        let full = take_many(s, p, n, el_list(el_id(w)))->Some_0.0;
        assert(full.drop_last() =~= adj);
    }
}

/// Every decoded graph has one adjacency list per vertex, and its edge count is the
/// sum of the lengths of those lists.
pub proof fn lemma_counts_agree(s: Seq<u8>)
    requires
        s.len() <= usize::MAX,
        parse_graph(s) is Ok,
    ensures
        parse_graph(s)->Ok_0.out_neighbors.len() == parse_graph(s)->Ok_0.num_vertices,
        parse_graph(s)->Ok_0.num_edges == total_len(parse_graph(s)->Ok_0.out_neighbors),
{
    let (_, p1) = take_text(s, 8)->Some_0;
    let (_, p2) = take_u8(s, p1)->Some_0;
    let (n, p3) = take_u64(s, p2)->Some_0;
    let w = id_width(n);
    lemma_take_many_len(s, p3, n as nat, el_list(el_id(w)));
    lemma_adjacency_span(s, p3, n as nat, w);
}

/// A buffer shorter than fourteen bytes is rejected as a malformed header, whatever it holds.
pub proof fn lemma_short_buffer(s: Seq<u8>)
    requires
        s.len() < 14,
    ensures
        parse_graph(s) == Err::<GraphFileView, DecodeError>(DecodeError::MalformedHeader),
{
}

impl Default for GraphFile {
    /// An empty, undirected graph in format version 1, little-endian.
    fn default() -> (r: GraphFile)
        ensures
            r.version_number == 1,
            r.endianness == 0,
            !r.directed,
            r.num_vertices == 0,
            r.num_edges == 0,
            r.out_neighbors@.len() == 0,
            r.properties@.len() == 0,
    {
        GraphFile {
            version_number: 1,
            endianness: 0,
            comment: "graph-tool binary file (http://graph-tool.skewed.de) generated by gt_graph_wasm".to_owned(),
            directed: false,
            num_vertices: 0,
            num_edges: 0,
            out_neighbors: Vec::new(),
            properties: Vec::new(),
        }
    }
}

} // verus!
