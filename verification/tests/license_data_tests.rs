use jetbra_tools::catalog::{parse_product_config, read_products};
use jetbra_tools::error::ErrorKind;
use jetbra_tools::jetbra_key::{
    build_license_products, gen_license_data, LicenseData, ProductRequest,
};
use jetbra_tools::json::license_data_to_json;

const CATALOG: &str = "[[ide]]\nname = \"Test IDE\"\ncode = \"II\"\nplugin = [\"PA\", \"PB\"]\n\n[[ide]]\nname = \"Other IDE\"\ncode = \"GO\"\nplugin = []\n\n[[plugin]]\nname = \"Plugin A\"\ncode = \"PA\"\n\n[[plugin]]\nname = \"Plugin B\"\ncode = \"PB\"\n\n[[plugin]]\nname = \"Plugin C\"\ncode = \"PC\"\n";

fn req(code: &str, expired: &str) -> ProductRequest {
    ProductRequest {
        code: code.to_string(),
        expired: expired.to_string(),
    }
}

fn ids() -> (String, String, String, String) {
    (
        "1234567890".to_string(),
        "licensee".to_string(),
        "assignee".to_string(),
        "admin@example.com".to_string(),
    )
}

#[test]
fn test_catalog_parses() {
    let config = parse_product_config(CATALOG).unwrap();
    assert_eq!(config.ide.len(), 2);
    assert_eq!(config.ide[0].code, "II");
    assert_eq!(config.ide[0].name, "Test IDE");
    assert_eq!(config.ide[0].plugin, vec!["PA".to_string(), "PB".to_string()]);
    assert_eq!(config.plugin.len(), 3);
    assert_eq!(config.plugin[2].code, "PC");
}

#[test]
fn test_catalog_rejects_bad_toml() {
    let err = parse_product_config("not ][ toml").unwrap_err();
    assert_eq!(err.kind, ErrorKind::Catalog);
}

#[test]
fn test_catalog_rejects_missing_plugin_list() {
    let text = "[[ide]]\nname = \"X\"\ncode = \"II\"\n\n[[plugin]]\nname = \"A\"\ncode = \"PA\"\n";
    let err = parse_product_config(text).unwrap_err();
    assert_eq!(err.kind, ErrorKind::Catalog);
}

#[test]
fn test_embedded_default_catalog_drives_generation() {
    let (license_id, licensee, assignee, email) = ids();
    let data = gen_license_data(
        Some(req("II", "2099-12-31")),
        None,
        license_id,
        licensee,
        assignee,
        email,
        None,
    )
    .unwrap();
    let v: serde_json::Value = serde_json::from_str(&data).unwrap();
    let products = v["products"].as_array().unwrap();
    assert_eq!(products.len(), 2);
    assert_eq!(products[0]["code"].as_str().unwrap(), "PSW");
    assert_eq!(products[1]["code"].as_str().unwrap(), "PDB");
}

#[test]
fn test_embedded_default_catalog_parses() {
    let config = read_products(None).unwrap();
    assert!(config.ide.iter().any(|i| i.code == "II"));
    assert!(config.plugin.iter().any(|p| p.code == "PDB"));
}

#[test]
fn test_ide_bundle_two_plugins() {
    let (license_id, licensee, assignee, email) = ids();
    let data = gen_license_data(
        Some(req("II", "2099-12-31")),
        None,
        license_id,
        licensee,
        assignee,
        email,
        Some(CATALOG),
    )
    .unwrap();
    let v: serde_json::Value = serde_json::from_str(&data).unwrap();
    let products = v["products"].as_array().unwrap();
    assert_eq!(products.len(), 2);
    for p in products {
        assert_eq!(p["extended"], serde_json::Value::Bool(true));
        assert_eq!(p["fallbackDate"].as_str().unwrap(), "2099-12-31");
        assert_eq!(p["paidUpTo"].as_str().unwrap(), "2099-12-31");
    }
    assert_eq!(products[0]["code"].as_str().unwrap(), "PA");
    assert_eq!(products[1]["code"].as_str().unwrap(), "PB");
}

#[test]
fn test_dedup_keeps_ide_derived_entry() {
    let (license_id, licensee, assignee, email) = ids();
    let data = gen_license_data(
        Some(req("II", "2099-12-31")),
        Some(vec![req("PA", "2050-06-30"), req("PC", "2050-06-30")]),
        license_id,
        licensee,
        assignee,
        email,
        Some(CATALOG),
    )
    .unwrap();
    let v: serde_json::Value = serde_json::from_str(&data).unwrap();
    let products = v["products"].as_array().unwrap();
    // PA appears once, with the IDE-derived dates, and PC follows.
    assert_eq!(products.len(), 3);
    assert_eq!(products[0]["code"].as_str().unwrap(), "PA");
    assert_eq!(products[0]["paidUpTo"].as_str().unwrap(), "2099-12-31");
    assert_eq!(products[1]["code"].as_str().unwrap(), "PB");
    assert_eq!(products[2]["code"].as_str().unwrap(), "PC");
    assert_eq!(products[2]["paidUpTo"].as_str().unwrap(), "2050-06-30");
}

#[test]
fn test_explicit_plugins_without_ide_are_not_extended() {
    let (license_id, licensee, assignee, email) = ids();
    let data = gen_license_data(
        None,
        Some(vec![req("PC", "2090-01-01")]),
        license_id,
        licensee,
        assignee,
        email,
        Some(CATALOG),
    )
    .unwrap();
    let v: serde_json::Value = serde_json::from_str(&data).unwrap();
    let products = v["products"].as_array().unwrap();
    assert_eq!(products.len(), 1);
    assert_eq!(products[0]["extended"], serde_json::Value::Bool(false));
}

#[test]
fn test_unknown_ide_code_is_lookup_error() {
    let (license_id, licensee, assignee, email) = ids();
    let err = gen_license_data(
        Some(req("ZZ", "2099-12-31")),
        None,
        license_id,
        licensee,
        assignee,
        email,
        Some(CATALOG),
    )
    .unwrap_err();
    assert_eq!(err.kind, ErrorKind::Lookup);
}

#[test]
fn test_unknown_plugin_code_is_lookup_error() {
    let (license_id, licensee, assignee, email) = ids();
    let err = gen_license_data(
        None,
        Some(vec![req("NOPE", "2099-12-31")]),
        license_id,
        licensee,
        assignee,
        email,
        Some(CATALOG),
    )
    .unwrap_err();
    assert_eq!(err.kind, ErrorKind::Lookup);
}

#[test]
fn test_inconsistent_bundle_is_lookup_error() {
    // The IDE references a plugin code absent from the plugin list.
    let text = "[[ide]]\nname = \"X\"\ncode = \"II\"\nplugin = [\"GHOST\"]\n\n[[plugin]]\nname = \"A\"\ncode = \"PA\"\n";
    let (license_id, licensee, assignee, email) = ids();
    let err = gen_license_data(
        Some(req("II", "2099-12-31")),
        None,
        license_id,
        licensee,
        assignee,
        email,
        Some(text),
    )
    .unwrap_err();
    assert_eq!(err.kind, ErrorKind::Lookup);
}

#[test]
fn test_neither_ide_nor_plugins_is_input_error() {
    let (license_id, licensee, assignee, email) = ids();
    let err = gen_license_data(None, None, license_id, licensee, assignee, email, Some(CATALOG))
        .unwrap_err();
    assert_eq!(err.kind, ErrorKind::Input);
}

#[test]
fn test_unparsable_override_is_catalog_error() {
    let (license_id, licensee, assignee, email) = ids();
    let err = gen_license_data(
        None,
        Some(vec![req("PC", "2090-01-01")]),
        license_id,
        licensee,
        assignee,
        email,
        Some("ide = 3"),
    )
    .unwrap_err();
    assert_eq!(err.kind, ErrorKind::Catalog);
}

#[test]
fn test_exact_json_wire_form() {
    let data = gen_license_data(
        None,
        Some(vec![req("PC", "2090-01-01")]),
        "LID".to_string(),
        "me".to_string(),
        "me".to_string(),
        "a@b.c".to_string(),
        Some(CATALOG),
    )
    .unwrap();
    let expected = "{\"licenseId\":\"LID\",\"licenseeName\":\"me\",\"assigneeName\":\"me\",\"assigneeEmail\":\"a@b.c\",\"licenseRestriction\":\"\",\"checkConcurrentUse\":false,\"products\":[{\"code\":\"PC\",\"fallbackDate\":\"2090-01-01\",\"paidUpTo\":\"2090-01-01\",\"extended\":false}],\"metadata\":\"0120220902PSAN000005\",\"hash\":\"TRIAL:1234567890\",\"gracePeriodDays\":7,\"autoProlongated\":false,\"isAutoProlongated\":false}";
    assert_eq!(data, expected);
}

#[test]
fn test_json_escaping_round_trip() {
    let tricky = "a\"b\\c\nd\te\u{1}f";
    let data = gen_license_data(
        None,
        Some(vec![req("PC", "2090-01-01")]),
        "LID".to_string(),
        tricky.to_string(),
        "me".to_string(),
        "a@b.c".to_string(),
        Some(CATALOG),
    )
    .unwrap();
    let v: serde_json::Value = serde_json::from_str(&data).unwrap();
    assert_eq!(v["licenseeName"].as_str().unwrap(), tricky);
}

#[test]
fn test_build_license_products_directly() {
    let config = parse_product_config(CATALOG).unwrap();
    let products = build_license_products(
        &config,
        &Some(req("II", "2099-12-31")),
        &Some(vec![req("PA", "2050-06-30")]),
    )
    .unwrap();
    assert_eq!(products.len(), 2);
    assert_eq!(products[0].code, "PA");
    assert_eq!(products[0].paid_up_to, "2099-12-31");
    assert!(products[0].extended);
    assert_eq!(products[1].code, "PB");
}

#[test]
fn test_license_data_default_values() {
    let d = LicenseData::default();
    assert_eq!(d.license_id, "8888888888");
    assert_eq!(d.licensee_name, "your name");
    assert_eq!(d.assignee_email, "admin@example.com");
    assert_eq!(d.license_restriction, "");
    assert!(!d.check_concurrent_use);
    assert!(d.products.is_empty());
    assert_eq!(d.metadata, "0120220902PSAN000005");
    assert_eq!(d.hash, "TRIAL:1234567890");
    assert_eq!(d.grace_period_days, 7);
    assert!(!d.auto_prolongated);
    assert!(!d.is_auto_prolongated);
}

#[test]
fn test_serializer_matches_serde_shape() {
    let d = LicenseData::default();
    let text = license_data_to_json(&d);
    let v: serde_json::Value = serde_json::from_str(&text).unwrap();
    assert_eq!(v["licenseId"].as_str().unwrap(), "8888888888");
    assert_eq!(v["gracePeriodDays"].as_u64().unwrap(), 7);
    assert_eq!(v["products"].as_array().unwrap().len(), 0);
}
