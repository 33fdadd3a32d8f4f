use blender_bridge::version::{parse_blender_version, version_less};

#[test]
fn parses_one_to_three_components() {
    assert_eq!(parse_blender_version("4"), Some((4, 0, 0)));
    assert_eq!(parse_blender_version("4.2"), Some((4, 2, 0)));
    assert_eq!(parse_blender_version("4.2.1"), Some((4, 2, 1)));
    assert_eq!(parse_blender_version("2.93"), Some((2, 93, 0)));
    assert_eq!(parse_blender_version("004.010.000"), Some((4, 10, 0)));
    assert_eq!(parse_blender_version("0"), Some((0, 0, 0)));
    assert_eq!(parse_blender_version("4294967295.0.4294967295"), Some((4294967295, 0, 4294967295)));
}

#[test]
fn rejects_what_is_no_version() {
    assert_eq!(parse_blender_version(""), None);
    assert_eq!(parse_blender_version("."), None);
    assert_eq!(parse_blender_version("4."), None);
    assert_eq!(parse_blender_version(".4"), None);
    assert_eq!(parse_blender_version("4..1"), None);
    assert_eq!(parse_blender_version("4.2."), None);
    assert_eq!(parse_blender_version("4.2.x"), None);
    assert_eq!(parse_blender_version("v4.2"), None);
    assert_eq!(parse_blender_version("4.2 "), None);
    assert_eq!(parse_blender_version(" 4.2"), None);
    assert_eq!(parse_blender_version("-4.2"), None);
    assert_eq!(parse_blender_version("4.-2"), None);
    assert_eq!(parse_blender_version("config"), None);
    assert_eq!(parse_blender_version("4294967296"), None);
    assert_eq!(parse_blender_version("1.99999999999999999999"), None);
    assert_eq!(parse_blender_version("٤.٢"), None);
    assert_eq!(parse_blender_version("+"), None);
    assert_eq!(parse_blender_version("4.+"), None);
}

#[test]
fn rejects_a_fourth_component() {
    assert_eq!(parse_blender_version("4.2.1.0"), None);
    assert_eq!(parse_blender_version("4.2.1."), None);
    assert_eq!(parse_blender_version("1.2.3.x"), None);
}

#[test]
fn components_are_read_as_std_reads_numbers() {
    let samples = [
        "0", "7", "42", "+42", "++42", "+", "-1", "", "4294967295", "4294967296", "00000000000001",
        "12a", "a12", " 1", "1 ", "1_000", "٣", "99999999999999999999999",
    ];
    for sample in samples {
        let expected = sample.parse::<u32>().ok().map(|major| (major, 0, 0));
        assert_eq!(parse_blender_version(sample), expected, "{sample:?}");
        let dotted = format!("1.{sample}");
        let expected = sample.parse::<u32>().ok().map(|minor| (1, minor, 0));
        assert_eq!(parse_blender_version(&dotted), expected, "{dotted:?}");
        let dotted = format!("1.2.{sample}");
        let expected = sample.parse::<u32>().ok().map(|patch| (1, 2, patch));
        assert_eq!(parse_blender_version(&dotted), expected, "{dotted:?}");
    }
}

#[test]
fn versions_are_ordered_as_numbers() {
    let a = parse_blender_version("4.10.0").unwrap();
    let b = parse_blender_version("4.9.5").unwrap();
    let c = parse_blender_version("4.9").unwrap();
    let d = parse_blender_version("2").unwrap();
    assert!(version_less(b, a));
    assert!(version_less(c, b));
    assert!(version_less(d, c));
    assert!(version_less(d, a));
    assert!(!version_less(a, b));
    assert!(!version_less(b, c));
    assert!(!version_less(c, d));
    assert!(!version_less(a, a));
}

#[test]
fn version_order_is_that_of_triples() {
    let values = [0u32, 1, 9, 10, u32::MAX];
    for a0 in values {
        for a1 in values {
            for b0 in values {
                for b1 in values {
                    let a = (a0, a1, 5);
                    let b = (b0, b1, 5);
                    assert_eq!(version_less(a, b), a < b);
                    assert_eq!(version_less((3, a0, a1), (3, b0, b1)), (3, a0, a1) < (3, b0, b1));
                }
            }
        }
    }
}
