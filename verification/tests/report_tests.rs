use cpu_hash::Workload;
use cpu_hash::format_report;
use cpu_hash::to_hex;

#[test]
fn hex_of_known_bytes() {
    assert_eq!(to_hex(&vec![0xbe, 0xef]), "beef");
    assert_eq!(to_hex(&vec![0x00, 0x0f, 0xa0]), "000fa0");
    assert_eq!(to_hex(&Vec::new()), "");
}

#[test]
fn report_line_exact() {
    let digest = vec![0xabu8; 32];
    let line = format_report(2_000_000, &digest, 12_345_678);
    let hex: String = std::iter::repeat("ab").take(32).collect();
    assert_eq!(
        line,
        format!("iterations=2000000 digest={} elapsed_ms=12345.678", hex)
    );
}

#[test]
fn report_keeps_fraction_zeros() {
    let digest = vec![0u8; 32];
    let line = format_report(1, &digest, 5);
    assert!(line.ends_with(" elapsed_ms=0.005"), "line {:?}", line);
    let line = format_report(1, &digest, 0);
    assert!(line.ends_with(" elapsed_ms=0.000"), "line {:?}", line);
    let line = format_report(1, &digest, 999);
    assert!(line.ends_with(" elapsed_ms=0.999"), "line {:?}", line);
    let line = format_report(1, &digest, 1000);
    assert!(line.ends_with(" elapsed_ms=1.000"), "line {:?}", line);
}

#[test]
fn report_digest_field_is_64_lowercase_hex() {
    let w = Workload::standard();
    let digest = w.run(3);
    let line = format_report(3, &digest, 1234);
    let fields: Vec<&str> = line.split(' ').collect();
    assert_eq!(fields.len(), 3);
    assert_eq!(fields[0], "iterations=3");
    let digest_field = fields[1].strip_prefix("digest=").unwrap();
    assert_eq!(digest_field.len(), 64);
    assert!(digest_field.chars().all(|c| c.is_ascii_hexdigit() && !c.is_ascii_uppercase()));
    assert_eq!(digest_field, to_hex(&digest));
    assert_eq!(fields[2], "elapsed_ms=1.234");
}
