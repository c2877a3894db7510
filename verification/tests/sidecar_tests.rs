use comichost::digits::parse_u32_dec;
use comichost::digits::u32_to_dec;
use comichost::resizer::Size;
use comichost::sidecar::parse_size;
use comichost::sidecar::serialize_size;

#[test]
fn serialize_writes_canonical_json() {
    let s = serialize_size(Size { w: 800, h: 450 });
    assert_eq!(s, "{\"w\":800,\"h\":450}");
}

#[test]
fn parse_reads_what_serialize_wrote() {
    let sz = Size { w: 1600, h: 900 };
    assert_eq!(parse_size(&serialize_size(sz)), Some(sz));
}

#[test]
fn parse_round_trips_edge_sizes() {
    for sz in [
        Size { w: 0, h: 0 },
        Size { w: 1, h: u32::MAX },
        Size { w: u32::MAX, h: 1 },
    ] {
        assert_eq!(parse_size(&serialize_size(sz)), Some(sz));
    }
}

#[test]
fn parse_rejects_garbage() {
    assert_eq!(parse_size(""), None);
    assert_eq!(parse_size("not json"), None);
    assert_eq!(parse_size("{\"w\":800}"), None);
    assert_eq!(parse_size("{\"h\":450,\"w\":800}"), None);
    assert_eq!(parse_size("{\"w\":800,\"h\":450"), None);
}

#[test]
fn parse_is_strict_about_the_canonical_form() {
    // The codec accepts exactly what it writes: anything else is a cache
    // miss for the caller.
    assert_eq!(parse_size("{ \"w\": 800, \"h\": 450 }"), None);
    assert_eq!(parse_size("{\"w\":0800,\"h\":450}"), None);
    assert_eq!(parse_size("{\"w\":-800,\"h\":450}"), None);
}

#[test]
fn parse_rejects_values_beyond_u32() {
    assert_eq!(parse_size("{\"w\":4294967295,\"h\":1}"), Some(Size { w: u32::MAX, h: 1 }));
    assert_eq!(parse_size("{\"w\":4294967296,\"h\":1}"), None);
}

#[test]
fn decimal_rendering_is_canonical() {
    assert_eq!(u32_to_dec(0), "0");
    assert_eq!(u32_to_dec(7), "7");
    assert_eq!(u32_to_dec(450), "450");
    assert_eq!(u32_to_dec(u32::MAX), "4294967295");
}

#[test]
fn decimal_parsing_matches_rendering() {
    for n in [0u32, 1, 9, 10, 99, 100, 12345, u32::MAX] {
        assert_eq!(parse_u32_dec(&u32_to_dec(n)), Some(n));
    }
    assert_eq!(parse_u32_dec(""), None);
    assert_eq!(parse_u32_dec("007"), None);
    assert_eq!(parse_u32_dec("12a"), None);
}
