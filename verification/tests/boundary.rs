use gtk_glue::gboolean::{some_if, to_bool, to_gboolean};
use gtk_glue::handle::Handle;
use gtk_glue::selection_mode::SelectionMode;

#[test]
fn gboolean_encodes_true_as_one() {
    assert_eq!(to_gboolean(true), 1);
}

#[test]
fn gboolean_encodes_false_as_zero() {
    assert_eq!(to_gboolean(false), 0);
}

#[test]
fn any_nonzero_gboolean_is_true() {
    assert!(to_bool(1));
    assert!(to_bool(7));
    assert!(to_bool(-1));
}

#[test]
fn zero_gboolean_is_false() {
    assert!(!to_bool(0));
}

#[test]
fn gboolean_round_trip() {
    assert!(to_bool(to_gboolean(true)));
    assert!(!to_bool(to_gboolean(false)));
}

#[test]
fn some_if_hands_the_value_on_when_the_flag_is_true() {
    assert_eq!(some_if(1, 42u32), Some(42u32));
    assert_eq!(some_if(-3, "row"), Some("row"));
}

#[test]
fn some_if_drops_the_value_when_the_flag_is_false() {
    assert_eq!(some_if(0, 42u32), None);
}

#[test]
fn selection_modes_encode_as_the_c_enum_values() {
    assert_eq!(SelectionMode::NoSelection.to_raw(), 0);
    assert_eq!(SelectionMode::Single.to_raw(), 1);
    assert_eq!(SelectionMode::Browse.to_raw(), 2);
    assert_eq!(SelectionMode::Multiple.to_raw(), 3);
}

#[test]
fn selection_modes_decode_from_the_c_enum_values() {
    assert_eq!(SelectionMode::from_raw(0), Some(SelectionMode::NoSelection));
    assert_eq!(SelectionMode::from_raw(1), Some(SelectionMode::Single));
    assert_eq!(SelectionMode::from_raw(2), Some(SelectionMode::Browse));
    assert_eq!(SelectionMode::from_raw(3), Some(SelectionMode::Multiple));
}

#[test]
fn an_integer_outside_the_enum_decodes_to_no_mode() {
    assert_eq!(SelectionMode::from_raw(4), None);
    assert_eq!(SelectionMode::from_raw(-1), None);
    assert_eq!(SelectionMode::from_raw(i32::MAX), None);
}

#[test]
fn selection_mode_round_trip() {
    let modes = [
        SelectionMode::NoSelection,
        SelectionMode::Single,
        SelectionMode::Browse,
        SelectionMode::Multiple,
    ];
    for m in modes {
        assert_eq!(SelectionMode::from_raw(m.to_raw()), Some(m));
    }
}

#[test]
fn the_null_address_yields_no_handle() {
    assert!(Handle::wrap(0).is_none());
}

#[test]
fn a_nonnull_address_yields_a_handle_that_keeps_it() {
    let h = Handle::wrap(0x5528).expect("non-null address");
    assert_eq!(h.as_raw(), 0x5528);
}
