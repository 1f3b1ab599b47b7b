use file_dialog::view_options::{
    apply_view_toggles, kcl_type_name, set_all_visible, toggles_fit_len, KclFlag, ViewToggles, KCL_TYPE_COUNT,
};

fn toggles(w: bool, i: bool, d: bool, e: bool) -> ViewToggles {
    ViewToggles { show_walls: w, show_invisible_walls: i, show_death_barriers: d, show_effects_triggers: e }
}

#[test]
fn flag_indices_and_names() {
    assert_eq!(KclFlag::Road1.index(), 0);
    assert_eq!(KclFlag::Wall1.index(), 12);
    assert_eq!(KclFlag::InvisibleWall2.index(), 31);
    assert_eq!(kcl_type_name(0), "Road1");
    assert_eq!(kcl_type_name(25), "WeakWall");
    assert_eq!(kcl_type_name(KCL_TYPE_COUNT - 1), "InvisibleWall2");
}

#[test]
fn hiding_walls_hides_wall_groups_only() {
    let mut current = toggles(true, true, true, true);
    let mut visible = vec![true; KCL_TYPE_COUNT];
    apply_view_toggles(&mut current, toggles(false, true, true, true), &mut visible);
    assert_eq!(current, toggles(false, true, true, true));
    for i in 0..KCL_TYPE_COUNT {
        let wall = i == 12 || i == 15 || i == 25;
        assert_eq!(visible[i], !wall, "group {i}");
    }
}

#[test]
fn unchanged_toggles_keep_custom_visibility() {
    let mut current = toggles(true, false, true, false);
    let mut visible = vec![false; KCL_TYPE_COUNT];
    visible[12] = true;
    apply_view_toggles(&mut current, toggles(true, false, true, false), &mut visible);
    assert!(visible[12]);
    assert_eq!(visible.iter().filter(|v| **v).count(), 1);
}

#[test]
fn showing_effects_and_barriers() {
    let mut current = toggles(false, false, false, false);
    let mut visible = vec![false; KCL_TYPE_COUNT];
    apply_view_toggles(&mut current, toggles(false, true, true, true), &mut visible);
    let shown: Vec<usize> = (0..KCL_TYPE_COUNT).filter(|i| visible[*i]).collect();
    assert_eq!(shown, vec![10, 13, 16, 17, 24, 26, 27, 31]);
    // Applying the same request again changes nothing.
    let before = visible.clone();
    apply_view_toggles(&mut current, toggles(false, true, true, true), &mut visible);
    assert_eq!(before, visible);
}

#[test]
fn check_and_uncheck_all() {
    let mut visible = vec![true, false, true];
    set_all_visible(&mut visible, false);
    assert_eq!(visible, vec![false, false, false]);
    set_all_visible(&mut visible, true);
    assert_eq!(visible, vec![true, true, true]);
}

#[test]
fn toggles_fit_only_needs_changed_groups() {
    let t = toggles(true, true, true, true);
    assert!(toggles_fit_len(t, t, 0));
    assert!(!toggles_fit_len(t, toggles(false, true, true, true), 25));
    assert!(toggles_fit_len(t, toggles(false, true, true, true), 26));
    assert!(!toggles_fit_len(t, toggles(true, false, true, true), 31));
    assert!(toggles_fit_len(t, toggles(true, true, false, true), 17));
    assert!(!toggles_fit_len(t, toggles(true, true, true, false), 27));
}
