use efl::ecore::evas_data_get;
use efl::ecore::evas_data_set;
use efl::ecore::evas_free;
use efl::ecore::evas_geometry_get;
use efl::ecore::evas_new;
use efl::ecore::evas_show;
use efl::ecore::EcoreEvas;
use efl::eo::Eo;

#[test]
fn window_geometry_roundtrip() {
    // A window created with explicit geometry reports exactly that
    // geometry.
    let ee: EcoreEvas<u32> = evas_new(Some("software_x11"), 10, 20, 300, 200, "");
    assert_eq!(evas_geometry_get(&ee), (10, 20, 300, 200));
    evas_free(ee);
}

#[test]
fn window_show_keeps_geometry() {
    let mut ee: EcoreEvas<u32> = evas_new(None, 0, 0, 640, 480, "");
    evas_show(&mut ee);
    assert_eq!(evas_geometry_get(&ee), (0, 0, 640, 480));
}

#[test]
fn window_data_set_get() {
    let mut ee: EcoreEvas<i64> = evas_new(None, 1, 2, 3, 4, "");
    assert!(evas_data_get(&ee, "answer").is_none());
    evas_data_set(&mut ee, "answer", 42);
    evas_data_set(&mut ee, "other", 7);
    assert_eq!(evas_data_get(&ee, "answer"), Some(&42));
    // Storing under the same key again replaces the value.
    evas_data_set(&mut ee, "answer", 43);
    assert_eq!(evas_data_get(&ee, "answer"), Some(&43));
    assert_eq!(evas_data_get(&ee, "other"), Some(&7));
    assert!(evas_data_get(&ee, "missing").is_none());
}

#[test]
fn window_data_empty_key() {
    let mut ee: EcoreEvas<u8> = evas_new(None, 0, 0, 1, 1, "");
    evas_data_set(&mut ee, "", 5);
    assert_eq!(evas_data_get(&ee, ""), Some(&5));
    assert!(evas_data_get(&ee, "a").is_none());
}

#[test]
fn window_negative_position() {
    let ee: EcoreEvas<u8> = evas_new(None, -5, -6, 10, 10, "opt=1");
    assert_eq!(evas_geometry_get(&ee), (-5, -6, 10, 10));
}

#[test]
fn eo_identity() {
    let o = Eo::Id(7);
    assert_eq!(o.id(), 7);
    assert_eq!(o, Eo::Id(7));
    assert_ne!(o, Eo::Id(8));
}
