use easyfocus::geometry::{dwindle, label_box, resized, Region, Resize};
use easyfocus::hooks::{centered_region, ClassRules, Placement};
use easyfocus::nvim::is_session_dir;
use easyfocus::workspaces::{next_free_workspace, previous_free_workspace};

#[test]
fn dwindle_nothing_and_one() {
    let r = Region::new(0, 0, 1000, 800);
    assert!(dwindle(&[], None, &r, 1).is_empty());
    assert_eq!(dwindle(&[4], None, &r, 1), vec![(4, Some(r))]);
}

#[test]
fn dwindle_three_windows() {
    let r = Region::new(0, 0, 1000, 800);
    assert_eq!(
        dwindle(&[1, 2, 3], Some(1), &r, 1),
        vec![
            (1, Some(Region::new(500, 400, 500, 400))),
            (2, Some(Region::new(500, 0, 500, 400))),
            (3, Some(Region::new(0, 0, 500, 800))),
        ]
    );
}

#[test]
fn dwindle_odd_width_rounds_down() {
    let r = Region::new(10, 20, 101, 300);
    assert_eq!(
        dwindle(&[1, 2], None, &r, 1),
        vec![(1, Some(Region::new(60, 20, 51, 300))), (2, Some(Region::new(10, 20, 50, 300)))]
    );
}

#[test]
fn dwindle_stops_below_minimum() {
    let r = Region::new(0, 0, 40, 800);
    assert_eq!(dwindle(&[1, 2, 3], None, &r, 1), vec![(1, Some(r)), (2, None), (3, None)]);
}

#[test]
fn split_regions() {
    let r = Region::new(10, 10, 100, 60);
    assert_eq!(
        r.split_at_width(30),
        Some((Region::new(10, 10, 30, 60), Region::new(40, 10, 70, 60)))
    );
    assert_eq!(
        r.split_at_height(60),
        Some((Region::new(10, 10, 100, 60), Region::new(10, 70, 100, 0)))
    );
    assert_eq!(r.split_at_width(101), None);
    assert_eq!(r.split_at_height(61), None);
}

#[test]
fn resize_steps() {
    assert_eq!(resized(10, 20, 100, 50, Resize::Grow), Some(Region::new(10, 20, 120, 60)));
    assert_eq!(resized(10, 20, 100, 50, Resize::Shrink), Some(Region::new(10, 20, 80, 40)));
    assert_eq!(resized(10, 20, 100, 50, Resize::GrowCentered), Some(Region::new(0, 15, 120, 60)));
    assert_eq!(resized(10, 20, 100, 50, Resize::ShrinkCentered), Some(Region::new(20, 25, 80, 40)));
    assert_eq!(resized(5, 20, 100, 50, Resize::GrowCentered), None);
    assert_eq!(resized(u32::MAX, 0, 100, 50, Resize::ShrinkCentered), None);
}

#[test]
fn centered_window() {
    let screen = Region::new(0, 0, 1920, 1080);
    assert_eq!(centered_region(&screen, 800, 600), Region::new(560, 240, 800, 600));
    let second = Region::new(1920, 0, 1280, 1024);
    assert_eq!(centered_region(&second, 1280, 1), Region::new(1920, 511, 1280, 1));
}

#[test]
fn class_placement() {
    let rules = ClassRules::new(vec!["rofi".to_string()], vec!["emacs".to_string(), "Alacritty".to_string()]);
    assert_eq!(rules.placement(&"rofi".to_string()), Placement { translucent: true, centered: true });
    assert_eq!(rules.placement(&"emacs".to_string()), Placement { translucent: false, centered: false });
    assert_eq!(rules.placement(&"firefox".to_string()), Placement { translucent: true, centered: false });
    assert_eq!(rules.placement(&"alacritty".to_string()), Placement { translucent: true, centered: false });
}

#[test]
fn next_workspace_cycles() {
    assert_eq!(next_free_workspace(9, 2, &vec![2, 5]), Some(3));
    assert_eq!(next_free_workspace(9, 2, &vec![2, 3, 4, 5, 6, 7, 8]), Some(0));
    assert_eq!(next_free_workspace(9, 8, &vec![8, 0]), Some(1));
    assert_eq!(next_free_workspace(3, 0, &vec![0, 1, 2]), None);
    assert_eq!(next_free_workspace(0, 0, &vec![]), None);
}

#[test]
fn previous_workspace_cycles() {
    assert_eq!(previous_free_workspace(9, 2, &vec![2]), Some(1));
    assert_eq!(previous_free_workspace(9, 2, &vec![2, 1]), Some(0));
    assert_eq!(previous_free_workspace(9, 0, &vec![0]), Some(8));
    assert_eq!(previous_free_workspace(9, 1, &vec![1, 0, 8]), Some(7));
    assert_eq!(previous_free_workspace(2, 1, &vec![0, 1]), None);
}

#[test]
fn session_directories() {
    assert!(is_session_dir(true, "nvimAbC123"));
    assert!(is_session_dir(true, "nvim"));
    assert!(!is_session_dir(false, "nvim0"));
    assert!(!is_session_dir(true, "vim"));
    assert!(!is_session_dir(true, "xnvim"));
}

#[test]
fn overlay_size() {
    assert_eq!(label_box(1), (15, 18));
    assert_eq!(label_box(3), (33, 18));
}
