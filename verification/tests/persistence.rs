use neuroflow::io::{from_json, load_bytes, save_bytes, to_json};
use neuroflow::models::{Network, Unencodable};
use neuroflow::Encodable;
use neuroflow::ErrorKind;

fn sample_network() -> Network {
    Network {
        layout: vec![2, 2, 1],
        weights: vec![1, -2, 3, 4, -5, 6],
        cache: 99,
    }
}

#[test]
fn round_trip_preserves_parameters() {
    let mut original = sample_network();
    let bytes = save_bytes(&mut original).unwrap();
    let loaded: Network = load_bytes(&bytes).unwrap();

    assert_eq!(loaded.layout, vec![2, 2, 1]);
    assert_eq!(loaded.weights, vec![1, -2, 3, 4, -5, 6]);
    // The marker holds the post-load value rebuilt by `after`, not the
    // pre-save one.
    assert_eq!(loaded.cache, 6);
    assert_ne!(loaded.cache, 99);
}

#[test]
fn round_trip_of_empty_model() {
    let mut original = Network { layout: vec![], weights: vec![], cache: 42 };
    let bytes = save_bytes(&mut original).unwrap();
    let loaded: Network = load_bytes(&bytes).unwrap();

    assert_eq!(loaded.layout, Vec::<u64>::new());
    assert_eq!(loaded.weights, Vec::<i64>::new());
    assert_eq!(loaded.cache, 0);
}

#[test]
fn before_runs_prior_to_encoding() {
    let mut original = sample_network();
    let bytes = save_bytes(&mut original).unwrap();

    // The hook has normalized the caller's model in place.
    assert_eq!(original.cache, 0);
    // The buffer holds the normalized model: decoding it without the
    // `after` hook shows the cleared marker, not the pre-save 99.
    let raw: Network = <Network as Encodable>::decode(&bytes).unwrap();
    assert_eq!(raw.cache, 0);
    assert_eq!(raw.weights, vec![1, -2, 3, 4, -5, 6]);
}

#[test]
fn after_runs_prior_to_return() {
    let mut original = sample_network();
    let bytes = save_bytes(&mut original).unwrap();
    let loaded: Network = load_bytes(&bytes).unwrap();

    // The decoded buffer carries marker 0; only the `after` hook, run
    // before the value is handed back, can have set it to 6.
    assert_eq!(loaded.cache, 6);
}

#[test]
fn saving_twice_yields_identical_bytes() {
    let mut a = sample_network();
    let mut b = sample_network();
    assert_eq!(save_bytes(&mut a).unwrap(), save_bytes(&mut b).unwrap());
}

#[test]
fn encoding_failure_yields_no_bytes() {
    let mut value = Unencodable { tag: 7 };
    let result = save_bytes(&mut value);
    // No byte buffer exists, so nothing could have been written anywhere.
    let err = result.unwrap_err();
    assert!(err.is_encoding());
    assert!(!err.is_io());
}

#[test]
fn truncated_bytes_yield_encoding_error() {
    let mut original = sample_network();
    let bytes = save_bytes(&mut original).unwrap();
    let result: Result<Network, ErrorKind> = load_bytes(&bytes[..bytes.len() / 2]);
    let err = result.unwrap_err();
    assert!(err.is_encoding());
    assert!(!err.is_io());
}

#[test]
fn unrelated_bytes_yield_encoding_error() {
    let result: Result<Network, ErrorKind> = load_bytes(&[1, 2, 3]);
    let err = result.unwrap_err();
    assert!(err.is_encoding());
    assert!(!err.is_io());
}

#[test]
fn text_export_is_deterministic() {
    let network = sample_network();
    let first = to_json(&network).unwrap();
    let second = to_json(&network).unwrap();
    assert_eq!(first, second);
}

#[test]
fn text_export_renders_the_fields() {
    let network = sample_network();
    let text = to_json(&network).unwrap();
    assert_eq!(text, "[[2,2,1],[1,-2,3,4,-5,6],99]");
}

#[test]
fn text_export_failure_is_json_kind() {
    let value = Unencodable { tag: 7 };
    let err = to_json(&value).unwrap_err();
    assert!(err.is_json());
    assert!(!err.is_encoding());
    assert!(!err.is_io());
}

#[test]
fn text_import_is_a_stub() {
    // Declared surface only: it decodes nothing and returns nothing.
    from_json("[[2,2,1],[1,-2,3,4,-5,6],99]");
}

#[test]
fn error_kind_reports_its_stage() {
    let io = ErrorKind::IO(String::from("no such file"));
    assert!(io.is_io());
    assert!(!io.is_encoding());
    assert!(!io.is_json());
    assert_eq!(io.message().as_str(), "no such file");

    let enc = ErrorKind::Encoding(String::from("truncated"));
    assert!(enc.is_encoding());
    assert_eq!(enc.message().as_str(), "truncated");

    let json = ErrorKind::Json(String::from("unrenderable"));
    assert!(json.is_json());
    assert_eq!(json.message().as_str(), "unrenderable");
}
