use j2534::{list, StoreEntry, StoreError};

fn entry(name: &str, vendor: &str, path: &str) -> Result<StoreEntry, StoreError> {
    Ok(StoreEntry {
        name: Ok(name.to_string()),
        vendor: Ok(vendor.to_string()),
        path: Ok(path.to_string()),
    })
}

#[test]
fn list_without_vendor_key_is_empty() {
    let r = list(Err(StoreError::NotFound)).unwrap();
    assert!(r.is_empty());
}

#[test]
fn list_other_store_failure_is_returned() {
    assert_eq!(list(Err(StoreError::Other(5))).unwrap_err(), StoreError::Other(5));
}

#[test]
fn list_two_children_in_enumeration_order() {
    let r = list(Ok(vec![
        entry("Adapter A", "Acme", "C:\\a.dll"),
        entry("Adapter B", "Bolt", "C:\\b.dll"),
    ]))
    .unwrap();
    assert_eq!(r.len(), 2);
    assert_eq!(r[0].name, "Adapter A");
    assert_eq!(r[0].vendor, "Acme");
    assert_eq!(r[0].path, "C:\\a.dll");
    assert_eq!(r[1].name, "Adapter B");
    assert_eq!(r[1].vendor, "Bolt");
    assert_eq!(r[1].path, "C:\\b.dll");
}

#[test]
fn list_missing_value_fails_whole_listing() {
    let broken = Ok(StoreEntry {
        name: Ok("Adapter B".to_string()),
        vendor: Err(StoreError::NotFound),
        path: Ok("C:\\b.dll".to_string()),
    });
    let r = list(Ok(vec![entry("Adapter A", "Acme", "C:\\a.dll"), broken]));
    assert_eq!(r.unwrap_err(), StoreError::NotFound);
}

#[test]
fn list_unreadable_child_fails() {
    let r = list(Ok(vec![Err(StoreError::Other(2)), entry("A", "B", "C")]));
    assert_eq!(r.unwrap_err(), StoreError::Other(2));
}
