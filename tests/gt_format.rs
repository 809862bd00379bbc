use gt_graph_wasm::graph_file::{get_out_neighbors, neighbor_id_width};
use gt_graph_wasm::graph_file::properties::{Property, PropertyData, PropertyMapType, PropertyType};
use gt_graph_wasm::{DecodeError, GraphFile};

fn le64(v: u64) -> Vec<u8> {
    v.to_le_bytes().to_vec()
}

fn text(s: &[u8]) -> Vec<u8> {
    let mut out = le64(s.len() as u64);
    out.extend_from_slice(s);
    out
}

/// Magic, version 1, little-endian, the given comment, directed flag and vertex count.
fn header(comment: &[u8], directed: u8, vertices: u64) -> Vec<u8> {
    let mut out = vec![0xe2, 0x9b, 0xbe, 0x20, 0x67, 0x74, 0x01, 0x00];
    out.extend(text(comment));
    out.push(directed);
    out.extend(le64(vertices));
    out
}

/// The two-vertex graph with the one edge 0 -> 1 and no properties.
fn two_vertex_graph() -> Vec<u8> {
    let mut b = header(b"", 0, 2);
    b.extend(le64(1));
    b.push(1);
    b.extend(le64(0));
    b.extend(le64(0));
    b
}

/// A graph of `vertices` vertices with no edges, followed by `props` property entries.
fn graph_with_properties(vertices: u64, adjacency: &[u8], props: &[Vec<u8>]) -> Vec<u8> {
    let mut b = header(b"", 1, vertices);
    b.extend_from_slice(adjacency);
    b.extend(le64(props.len() as u64));
    for p in props {
        b.extend_from_slice(p);
    }
    b
}

fn property_entry(map_type: u8, name: &[u8], value_type: u8, values: &[u8]) -> Vec<u8> {
    let mut out = vec![map_type];
    out.extend(text(name));
    out.push(value_type);
    out.extend_from_slice(values);
    out
}

fn decode_single_graph_property(value_type: u8, values: &[u8]) -> Property {
    let b = graph_with_properties(0, &[], &[property_entry(0, b"p", value_type, values)]);
    let g = GraphFile::try_from(&b).unwrap();
    assert_eq!(g.properties.len(), 1);
    g.properties[0].clone()
}

#[test]
fn end_to_end_two_vertex_graph() {
    let b = two_vertex_graph();
    let g = GraphFile::try_from(&b).unwrap();
    assert_eq!(g.num_vertices, 2);
    assert_eq!(g.num_edges, 1);
    assert!(!g.directed);
    assert_eq!(g.out_neighbors, vec![vec![1u64], vec![]]);
    assert!(g.properties.is_empty());
    assert_eq!(g.version_number, 1);
    assert_eq!(g.endianness, 0);
    assert_eq!(g.comment, "");
}

#[test]
fn decoding_twice_gives_the_same_graph() {
    let b = graph_with_properties(
        2,
        &[le64(1), vec![1], le64(0)].concat(),
        &[property_entry(1, b"w", 1, &[1, 0, 0xfe, 0xff])],
    );
    let a = GraphFile::try_from(&b).unwrap();
    let c = GraphFile::try_from(&b).unwrap();
    assert_eq!(a.num_vertices, c.num_vertices);
    assert_eq!(a.num_edges, c.num_edges);
    assert_eq!(a.out_neighbors, c.out_neighbors);
    assert_eq!(format!("{:?}", a.properties), format!("{:?}", c.properties));
}

#[test]
fn edge_count_is_sum_of_list_lengths() {
    let adjacency = [le64(2), vec![1, 2], le64(0), le64(3), vec![0, 1, 2]].concat();
    let b = graph_with_properties(3, &adjacency, &[]);
    let g = GraphFile::try_from(&b).unwrap();
    assert_eq!(g.out_neighbors.len() as u64, g.num_vertices);
    assert_eq!(g.num_edges, 5);
    assert_eq!(g.out_neighbors, vec![vec![1, 2], vec![], vec![0, 1, 2]]);
    assert!(g.directed);
}

#[test]
fn short_buffers_are_malformed_headers() {
    for len in 0..14 {
        let mut b = two_vertex_graph();
        b.truncate(len);
        assert_eq!(GraphFile::try_from(&b).unwrap_err(), DecodeError::MalformedHeader);
        let zeros = vec![0u8; len];
        assert_eq!(GraphFile::try_from(&zeros).unwrap_err(), DecodeError::MalformedHeader);
    }
}

#[test]
fn bad_header_fields_are_rejected() {
    let good = two_vertex_graph();
    for (at, value) in [(0usize, 0xe3u8), (5, 0x00), (6, 0x02), (6, 0x00), (7, 0x01), (16, 0x02)] {
        let mut b = good.clone();
        b[at] = value;
        assert_eq!(GraphFile::try_from(&b).unwrap_err(), DecodeError::MalformedHeader, "byte {}", at);
    }
}

#[test]
fn truncated_header_fields_are_malformed_headers() {
    let mut b = header(b"a long comment", 0, 2);
    b.truncate(20);
    assert_eq!(GraphFile::try_from(&b).unwrap_err(), DecodeError::MalformedHeader);
    let mut b = header(b"", 0, 2);
    b.truncate(20);
    assert_eq!(GraphFile::try_from(&b).unwrap_err(), DecodeError::MalformedHeader);
}

#[test]
fn comment_is_decoded_lossily() {
    let mut b = header(b"hi\xffthere", 0, 0);
    b.extend(le64(0));
    let g = GraphFile::try_from(&b).unwrap();
    assert_eq!(g.comment, "hi\u{fffd}there");
}

#[test]
fn truncated_adjacency_is_reported() {
    let mut b = header(b"", 0, 2);
    b.extend(le64(3));
    b.extend([1, 0]);
    assert_eq!(GraphFile::try_from(&b).unwrap_err(), DecodeError::MalformedAdjacency);
    let mut b = header(b"", 0, 2);
    b.extend(le64(0));
    assert_eq!(GraphFile::try_from(&b).unwrap_err(), DecodeError::MalformedAdjacency);
}

#[test]
fn missing_property_count_is_malformed_property() {
    let mut b = two_vertex_graph();
    b.truncate(b.len() - 8);
    assert_eq!(GraphFile::try_from(&b).unwrap_err(), DecodeError::MalformedProperty);
}

#[test]
fn neighbor_id_width_follows_vertex_count() {
    assert_eq!(neighbor_id_width(0), 1);
    assert_eq!(neighbor_id_width(255), 1);
    assert_eq!(neighbor_id_width(256), 2);
    assert_eq!(neighbor_id_width(65535), 2);
    assert_eq!(neighbor_id_width(65536), 4);
    assert_eq!(neighbor_id_width(4294967295), 4);
    assert_eq!(neighbor_id_width(4294967296), 8);
    assert_eq!(neighbor_id_width(u64::MAX), 8);
}

#[test]
fn two_byte_ids_for_256_vertices() {
    let mut adjacency = [le64(2), vec![0x02, 0x01, 0xff, 0x00]].concat();
    for _ in 1..256 {
        adjacency.extend(le64(0));
    }
    let b = graph_with_properties(256, &adjacency, &[]);
    let g = GraphFile::try_from(&b).unwrap();
    assert_eq!(g.out_neighbors[0], vec![0x0102, 0x00ff]);
    assert_eq!(g.num_edges, 2);
}

#[test]
fn four_byte_ids_for_65536_vertices() {
    let mut adjacency = [le64(1), vec![0x04, 0x03, 0x02, 0x01]].concat();
    for _ in 1..65536 {
        adjacency.extend(le64(0));
    }
    let b = graph_with_properties(65536, &adjacency, &[]);
    let g = GraphFile::try_from(&b).unwrap();
    assert_eq!(g.out_neighbors[0], vec![0x01020304]);
    assert_eq!(g.num_edges, 1);
}

#[test]
fn one_byte_ids_for_small_graphs() {
    let b = graph_with_properties(3, &[le64(2), vec![2, 1], le64(0), le64(0)].concat(), &[]);
    let g = GraphFile::try_from(&b).unwrap();
    assert_eq!(g.out_neighbors[0], vec![2, 1]);
}

#[test]
fn bool_property() {
    let p = decode_single_graph_property(0, &[1]);
    assert_eq!(p.name, "p");
    assert_eq!(p.map_type, PropertyMapType::Graph);
    assert!(matches!(p.data, PropertyData::Bool(ref v) if *v == vec![1u8]));
}

#[test]
fn bool_byte_other_than_zero_or_one_is_rejected() {
    let b = graph_with_properties(0, &[], &[property_entry(0, b"p", 0, &[2])]);
    assert_eq!(GraphFile::try_from(&b).unwrap_err(), DecodeError::MalformedProperty);
}

#[test]
fn signed_integer_properties() {
    let p = decode_single_graph_property(1, &[0xfe, 0xff]);
    assert!(matches!(p.data, PropertyData::Int16(ref v) if *v == vec![-2i16]));
    let p = decode_single_graph_property(2, &[0x01, 0x02, 0x03, 0x84]);
    assert!(matches!(p.data, PropertyData::Int32(ref v) if *v == vec![0x84030201u32 as i32]));
    let p = decode_single_graph_property(3, &(-5i64).to_le_bytes());
    assert!(matches!(p.data, PropertyData::Int64(ref v) if *v == vec![-5i64]));
}

#[test]
fn double_property_keeps_its_bits() {
    let p = decode_single_graph_property(4, &1.5f64.to_le_bytes());
    match p.data {
        PropertyData::Double(v) => {
            assert_eq!(v.len(), 1);
            assert_eq!(f64::from_bits(v[0]), 1.5);
        }
        _ => panic!("wrong kind"),
    }
}

#[test]
fn long_double_property_is_a_128_bit_integer() {
    let mut bytes = 3u128.to_le_bytes().to_vec();
    bytes[15] = 0x01;
    let p = decode_single_graph_property(5, &bytes);
    assert!(matches!(p.data, PropertyData::LongDouble(ref v) if *v == vec![3u128 | (1u128 << 120)]));
}

#[test]
fn string_property() {
    let p = decode_single_graph_property(6, &text(b"karate"));
    assert!(matches!(p.data, PropertyData::String(ref v) if *v == vec!["karate".to_string()]));
}

#[test]
fn vector_properties() {
    let p = decode_single_graph_property(7, &[le64(3), vec![1, 0, 1]].concat());
    assert!(matches!(p.data, PropertyData::VectorBool(ref v) if *v == vec![vec![1u8, 0, 1]]));
    let p = decode_single_graph_property(8, &[le64(2), vec![1, 0, 0xff, 0xff]].concat());
    assert!(matches!(p.data, PropertyData::VectorInt16(ref v) if *v == vec![vec![1i16, -1]]));
    let p = decode_single_graph_property(9, &[le64(1), (-7i32).to_le_bytes().to_vec()].concat());
    assert!(matches!(p.data, PropertyData::VectorInt32(ref v) if *v == vec![vec![-7i32]]));
    let p = decode_single_graph_property(10, &[le64(1), 9i64.to_le_bytes().to_vec()].concat());
    assert!(matches!(p.data, PropertyData::VectorInt64(ref v) if *v == vec![vec![9i64]]));
    let p = decode_single_graph_property(11, &[le64(1), 2.5f64.to_le_bytes().to_vec()].concat());
    assert!(matches!(p.data, PropertyData::VectorDouble(ref v) if *v == vec![vec![2.5f64.to_bits()]]));
    let p = decode_single_graph_property(12, &[le64(1), 7u128.to_le_bytes().to_vec()].concat());
    assert!(matches!(p.data, PropertyData::VectorLongDouble(ref v) if *v == vec![vec![7u128]]));
    let p = decode_single_graph_property(13, &[le64(2), text(b"a"), text(b"bc")].concat());
    assert!(matches!(p.data, PropertyData::VectorString(ref v)
        if *v == vec![vec!["a".to_string(), "bc".to_string()]]));
}

#[test]
fn vector_bool_with_bad_byte_is_rejected() {
    let b = graph_with_properties(0, &[], &[property_entry(0, b"p", 7, &[le64(2), vec![1, 5]].concat())]);
    assert_eq!(GraphFile::try_from(&b).unwrap_err(), DecodeError::MalformedProperty);
}

#[test]
fn pyobject_property_is_raw_bytes() {
    let p = decode_single_graph_property(14, &text(&[0x80, 0x04, 0xff]));
    assert!(matches!(p.data, PropertyData::PyObject(ref v) if *v == vec![vec![0x80u8, 0x04, 0xff]]));
}

#[test]
fn vertex_and_edge_properties_have_their_cardinality() {
    let adjacency = [le64(1), vec![1], le64(1), vec![0]].concat();
    let b = graph_with_properties(
        2,
        &adjacency,
        &[
            property_entry(1, b"v", 2, &[1, 0, 0, 0, 2, 0, 0, 0]),
            property_entry(2, b"e", 0, &[0, 1]),
        ],
    );
    let g = GraphFile::try_from(&b).unwrap();
    assert_eq!(g.properties[0].map_type, PropertyMapType::Vertex);
    assert!(matches!(g.properties[0].data, PropertyData::Int32(ref v) if *v == vec![1, 2]));
    assert_eq!(g.properties[1].map_type, PropertyMapType::Edge);
    assert!(matches!(g.properties[1].data, PropertyData::Bool(ref v) if *v == vec![0, 1]));
}

#[test]
fn bad_property_tags_are_rejected() {
    let b = graph_with_properties(0, &[], &[property_entry(3, b"p", 0, &[1])]);
    assert_eq!(GraphFile::try_from(&b).unwrap_err(), DecodeError::MalformedProperty);
    let b = graph_with_properties(0, &[], &[property_entry(0, b"p", 15, &[1])]);
    assert_eq!(GraphFile::try_from(&b).unwrap_err(), DecodeError::MalformedProperty);
}

#[test]
fn truncated_property_values_are_rejected() {
    let b = graph_with_properties(0, &[], &[property_entry(0, b"p", 3, &[1, 2, 3])]);
    assert_eq!(GraphFile::try_from(&b).unwrap_err(), DecodeError::MalformedProperty);
    let b = graph_with_properties(0, &[], &[property_entry(0, b"p", 6, &le64(9))]);
    assert_eq!(GraphFile::try_from(&b).unwrap_err(), DecodeError::MalformedProperty);
}

#[test]
fn from_data_moves_the_position() {
    let entry = property_entry(1, b"x", 1, &[5, 0, 6, 0]);
    let mut data = vec![0xaa];
    data.extend(&entry);
    data.push(0xbb);
    let mut pos = 1usize;
    let p = Property::from_data(&data, &mut pos, 2, 0).unwrap();
    assert_eq!(pos, 1 + entry.len());
    assert_eq!(p.name, "x");
    assert!(matches!(p.data(), PropertyData::Int16(v) if *v == vec![5, 6]));
    let mut pos = 1usize;
    assert_eq!(Property::from_data(&data, &mut pos, 3, 0).unwrap_err(), DecodeError::MalformedProperty);
    assert_eq!(pos, 1);
}

#[test]
fn tags_map_to_kinds() {
    assert_eq!(PropertyMapType::try_from(0), Ok(PropertyMapType::Graph));
    assert_eq!(PropertyMapType::try_from(2), Ok(PropertyMapType::Edge));
    assert_eq!(PropertyMapType::try_from(3), Err(DecodeError::MalformedProperty));
    assert_eq!(PropertyType::try_from(0), Ok(PropertyType::Bool));
    assert_eq!(PropertyType::try_from(13), Ok(PropertyType::VectorString));
    assert_eq!(PropertyType::try_from(14), Ok(PropertyType::PyObject));
    assert_eq!(PropertyType::try_from(15), Err(DecodeError::MalformedProperty));
}

#[test]
fn adjacency_reader_uses_one_width() {
    let data = [vec![0xaa], le64(2), vec![7, 0, 0, 1], le64(0)].concat();
    assert!(get_out_neighbors(&data, 1, 300).is_none());
    let mut data = [vec![0xaa], le64(2), vec![7, 0, 0, 1]].concat();
    for _ in 1..300 {
        data.extend(le64(0));
    }
    let (adj, edges, end) = get_out_neighbors(&data, 1, 300).unwrap();
    assert_eq!(adj[0], vec![7, 0x0100]);
    assert_eq!(edges, 2);
    assert_eq!(end, data.len());
    assert!(get_out_neighbors(&data, 1, 2).is_some());
    assert_eq!(get_out_neighbors(&data, 1, 2).unwrap().0[0], vec![7, 0]);
}
