use gt_graph_wasm::decode::{decodebuffer, decodebuffer_zstd, sniff, Container};
use gt_graph_wasm::graph_file::properties::{PropertyData, PropertyMapType};
use gt_graph_wasm::{Compression, DecodeError, Graph, GraphFile};

fn le64(v: u64) -> Vec<u8> {
    v.to_le_bytes().to_vec()
}

fn text(s: &[u8]) -> Vec<u8> {
    let mut out = le64(s.len() as u64);
    out.extend_from_slice(s);
    out
}

/// A raw (stored) zstd block.
fn raw_block(content: &[u8], last: bool) -> Vec<u8> {
    let h = ((content.len() as u32) << 3) | (last as u32);
    let mut out = h.to_le_bytes()[..3].to_vec();
    out.extend_from_slice(content);
    out
}

/// A single-segment zstd frame holding `content` in one raw block.
fn zstd_frame(content: &[u8]) -> Vec<u8> {
    assert!(content.len() < 256);
    let mut out = vec![0x28, 0xb5, 0x2f, 0xfd, 0x20, content.len() as u8];
    out.extend(raw_block(content, true));
    out
}

/// A skippable frame carrying `payload`.
fn skip_frame(payload: &[u8]) -> Vec<u8> {
    let mut out = vec![0x50, 0x2a, 0x4d, 0x18];
    out.extend((payload.len() as u32).to_le_bytes());
    out.extend_from_slice(payload);
    out
}

/// The gt bytes of the graph 0 -> 1, 0 -> 2, 2 -> 1 with the given property entries.
fn small_graph(props: &[Vec<u8>]) -> Vec<u8> {
    let mut b = vec![0xe2, 0x9b, 0xbe, 0x20, 0x67, 0x74, 0x01, 0x00];
    b.extend(text(b"test"));
    b.push(1);
    b.extend(le64(3));
    b.extend(le64(2));
    b.extend([1, 2]);
    b.extend(le64(0));
    b.extend(le64(1));
    b.push(1);
    b.extend(le64(props.len() as u64));
    for p in props {
        b.extend_from_slice(p);
    }
    b
}

fn entry(map_type: u8, name: &[u8], value_type: u8, values: &[u8]) -> Vec<u8> {
    let mut out = vec![map_type];
    out.extend(text(name));
    out.push(value_type);
    out.extend_from_slice(values);
    out
}

fn graph_with_duplicates() -> Graph {
    let props = vec![
        entry(1, b"w", 2, &[1, 0, 0, 0, 2, 0, 0, 0, 3, 0, 0, 0]),
        entry(0, b"name", 6, &text(b"g")),
        entry(2, b"w", 1, &[7, 0, 8, 0, 9, 0]),
        entry(1, b"w", 0, &[0, 1, 0]),
    ];
    Graph::try_from(small_graph(&props)).unwrap()
}

#[test]
fn xz_is_refused() {
    let b = vec![0xfd, 0x37, 0x7a, 0x58, 0x5a, 0x00, 1, 2, 3];
    assert_eq!(decodebuffer(&b).unwrap_err(), DecodeError::CompressionUnsupported(Compression::Xz));
    assert_eq!(sniff(&b), Container::Unsupported(Compression::Xz));
}

#[test]
fn gzip_and_zip_are_refused() {
    let gz = vec![0x1f, 0x8b, 0x08, 0xaa, 0xbb, 0xcc, 0xdd];
    assert_eq!(decodebuffer(&gz).unwrap_err(), DecodeError::CompressionUnsupported(Compression::Gzip));
    let zip = vec![0x50, 0x4b, 0x03, 0x04, 0x00, 0x00];
    assert_eq!(decodebuffer(&zip).unwrap_err(), DecodeError::CompressionUnsupported(Compression::Zip));
}

#[test]
fn unknown_signature_passes_through() {
    let b = small_graph(&[]);
    assert_eq!(sniff(&b), Container::Plain);
    assert_eq!(decodebuffer(&b).unwrap(), b);
    let short = vec![0x28, 0xb5, 0x2f, 0xfd, 0x00];
    assert_eq!(decodebuffer(&short).unwrap(), short);
    assert_eq!(decodebuffer(&[]).unwrap(), Vec::<u8>::new());
}

#[test]
fn zstd_signature_routes_to_zstd() {
    let f = zstd_frame(b"hello");
    assert_eq!(sniff(&f), Container::Zstd);
    assert_eq!(decodebuffer(&f).unwrap(), b"hello".to_vec());
}

#[test]
fn zstd_frames_are_concatenated() {
    let mut b = zstd_frame(b"ab");
    b.extend(zstd_frame(b"cde"));
    assert_eq!(decodebuffer_zstd(&b).unwrap(), b"abcde".to_vec());
}

#[test]
fn zstd_frame_of_several_blocks_with_checksum() {
    let mut b = vec![0x28, 0xb5, 0x2f, 0xfd, 0x24, 6];
    b.extend(raw_block(b"abc", false));
    b.extend(raw_block(b"def", true));
    b.extend([1, 2, 3, 4]);
    b.extend(zstd_frame(b"!"));
    assert_eq!(decodebuffer_zstd(&b).unwrap(), b"abcdef!".to_vec());
}

#[test]
fn skip_frame_changes_nothing() {
    let real = zstd_frame(b"graph");
    let mut b = skip_frame(&[9, 9, 9]);
    b.extend(&real);
    assert_eq!(decodebuffer_zstd(&b).unwrap(), decodebuffer_zstd(&real).unwrap());
    assert_eq!(decodebuffer_zstd(&b).unwrap(), b"graph".to_vec());
}

#[test]
fn skip_frame_past_the_end_ends_the_stream() {
    let mut b = zstd_frame(b"x");
    let mut skip = skip_frame(&[]);
    skip[4] = 100;
    b.extend(skip);
    assert_eq!(decodebuffer_zstd(&b).unwrap(), b"x".to_vec());
}

#[test]
fn malformed_zstd_fails() {
    let b = vec![0x28, 0xb5, 0x2f, 0xfd, 0x00, 0x00];
    assert!(matches!(decodebuffer(&b), Err(DecodeError::DecompressionFailed(_))));
    let mut b = zstd_frame(b"ok");
    b.extend([0x28, 0xb5, 0x2f, 0xfd, 0x20, 1, 0x07, 0, 0]);
    assert!(matches!(decodebuffer_zstd(&b), Err(DecodeError::DecompressionFailed(_))));
    let b = vec![0x28, 0xb5, 0x2f, 0xfd, 0x20, 5, 0x29, 0, 0, 1, 2];
    assert!(matches!(decodebuffer_zstd(&b), Err(DecodeError::DecompressionFailed(_))));
    let b = vec![0x00, 0x01, 0x02, 0x03, 0x04];
    assert!(matches!(decodebuffer_zstd(&b), Err(DecodeError::DecompressionFailed(_))));
}

#[test]
fn compressed_graph_decodes() {
    let plain = small_graph(&[]);
    let g = Graph::try_from(zstd_frame(&plain)).unwrap();
    assert_eq!(g.num_vertices(), 3);
    assert_eq!(g.num_edges(), 3);
    assert!(g.directed());
    assert_eq!(g.file.comment, "test");
}

#[test]
fn compressed_garbage_is_not_a_graph() {
    let g = Graph::try_from(zstd_frame(b"not a graph at all"));
    assert_eq!(g.unwrap_err(), DecodeError::MalformedHeader);
    let g = Graph::try_from(vec![0xfd, 0x37, 0x7a, 0x58, 0x5a, 0x00, 0, 0, 0, 0, 0, 0, 0, 0, 0]);
    assert_eq!(g.unwrap_err(), DecodeError::CompressionUnsupported(Compression::Xz));
}

#[test]
fn queries_over_a_graph() {
    let g = Graph::try_from(small_graph(&[])).unwrap();
    assert_eq!(g.vertices(), vec![0, 1, 2]);
    assert_eq!(g.edges(), (vec![0, 0, 2], vec![1, 2, 1]));
    assert_eq!(g.out_neighbors(0), &[1, 2]);
    assert_eq!(g.out_neighbors(1), &[] as &[u64]);
    assert_eq!(g.in_neighbors(1), vec![0, 2]);
    assert_eq!(g.in_neighbors(0), Vec::<u64>::new());
}

#[test]
fn lookup_returns_first_declared_match() {
    let mut g = graph_with_duplicates();
    let p = g.property("w".to_string(), None).unwrap();
    assert_eq!(p.map_type, PropertyMapType::Vertex);
    assert!(matches!(p.data, PropertyData::Int32(ref v) if *v == vec![1, 2, 3]));
    let p = g.property("w".to_string(), Some(PropertyMapType::Edge)).unwrap();
    assert!(matches!(p.data, PropertyData::Int16(ref v) if *v == vec![7, 8, 9]));
    let p = g.vertex_property("w".to_string()).unwrap();
    assert!(matches!(p.data, PropertyData::Int32(_)));
    let p = g.edge_property("w".to_string()).unwrap();
    assert_eq!(p.map_type, PropertyMapType::Edge);
    let p = g.graph_property("name".to_string()).unwrap();
    assert!(matches!(p.data, PropertyData::String(ref v) if *v == vec!["g".to_string()]));
}

#[test]
fn filter_never_matches_another_map_type() {
    let mut g = graph_with_duplicates();
    assert_eq!(
        g.graph_property("w".to_string()).unwrap_err(),
        "Property 'w' not found".to_string()
    );
    assert!(g.vertex_property("name".to_string()).is_err());
    assert!(g.property("missing".to_string(), None).is_err());
}

#[test]
fn property_names_by_map_type() {
    let g = graph_with_duplicates();
    assert_eq!(g.property_names(None), vec!["w", "name", "w", "w"]);
    assert_eq!(g.vertex_property_names(), vec!["w", "w"]);
    assert_eq!(g.edge_property_names(), vec!["w"]);
    assert_eq!(g.graph_property_names(), vec!["name"]);
}

#[test]
fn new_graph_is_empty() {
    let g = Graph::new();
    assert_eq!(g.num_vertices(), 0);
    assert_eq!(g.num_edges(), 0);
    assert!(g.vertices().is_empty());
    assert_eq!(g.edges(), (vec![], vec![]));
    let d = Graph::default();
    assert_eq!(d.num_vertices(), 0);
    let f = GraphFile::default();
    assert_eq!(f.version_number, 1);
    let g = Graph::from(f);
    assert!(!g.directed());
}

#[test]
fn empty_zstd_input_gives_empty_output() {
    assert_eq!(decodebuffer_zstd(&[]).unwrap(), Vec::<u8>::new());
}

#[test]
fn lone_skippable_frame_gives_empty_output() {
    let b = vec![0x50, 0x2a, 0x4d, 0x18, 0x00, 0x00, 0x00, 0x00];
    assert_eq!(decodebuffer_zstd(&b).unwrap(), Vec::<u8>::new());
    let b = vec![0x5f, 0x2a, 0x4d, 0x18, 0x02, 0x00, 0x00, 0x00, 0xff, 0xff];
    assert_eq!(decodebuffer_zstd(&b).unwrap(), Vec::<u8>::new());
}

#[test]
fn raw_frame_through_signature_routing() {
    let b = [0x28, 0xb5, 0x2f, 0xfd, 0x20, 0x03, 0x19, 0x00, 0x00, 0x61, 0x62, 0x63];
    assert_eq!(decodebuffer(&b).unwrap(), vec![0x61, 0x62, 0x63]);
}

#[test]
fn skippable_then_real_frame_bytes() {
    let b = [
        0x50, 0x2a, 0x4d, 0x18, 0x02, 0x00, 0x00, 0x00, 0xff, 0xff, 0x28, 0xb5, 0x2f, 0xfd, 0x20,
        0x03, 0x19, 0x00, 0x00, 0x61, 0x62, 0x63,
    ];
    assert_eq!(decodebuffer_zstd(&b).unwrap(), vec![0x61, 0x62, 0x63]);
    assert_eq!(decodebuffer_zstd(&b[10..]).unwrap(), vec![0x61, 0x62, 0x63]);
}

#[test]
fn two_frames_give_both_contents() {
    let f = [0x28, 0xb5, 0x2f, 0xfd, 0x20, 0x03, 0x19, 0x00, 0x00, 0x61, 0x62, 0x63];
    let b = [f, f].concat();
    assert_eq!(decodebuffer_zstd(&b).unwrap(), vec![0x61, 0x62, 0x63, 0x61, 0x62, 0x63]);
    let mut a = zstd_frame(b"xy");
    a.extend(skip_frame(&[1]));
    let c = zstd_frame(b"z");
    let joined = [a.clone(), c.clone()].concat();
    let mut expected = decodebuffer_zstd(&a).unwrap();
    expected.extend(decodebuffer_zstd(&c).unwrap());
    assert_eq!(decodebuffer_zstd(&joined).unwrap(), expected);
}

#[test]
fn equal_buffers_agree_on_failure() {
    let bad = vec![0x28, 0xb5, 0x2f, 0xfd, 0x00, 0x00];
    assert_eq!(Graph::try_from(bad.clone()).is_err(), Graph::try_from(bad).is_err());
    let good = zstd_frame(&small_graph(&[]));
    let a = Graph::try_from(good.clone()).unwrap();
    let b = Graph::try_from(good).unwrap();
    assert_eq!(a.file.out_neighbors, b.file.out_neighbors);
    assert_eq!(a.num_edges(), b.num_edges());
}

#[test]
fn zstd_graph_matches_decompress_then_parse() {
    let data = zstd_frame(&small_graph(&[]));
    let plain = decodebuffer(&data).unwrap();
    let direct = GraphFile::try_from(&plain).unwrap();
    let g = Graph::try_from(data).unwrap();
    assert_eq!(g.file.out_neighbors, direct.out_neighbors);
    assert_eq!(g.file.num_edges, direct.num_edges);
    assert_eq!(g.file.out_neighbors.len() as u64, g.num_vertices());
}
