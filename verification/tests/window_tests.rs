use cad_3e_engine::{best_config, Window};

#[test]
fn new_window_keeps_size_and_title() {
    let w = Window::new(800, 600, "CAD-3E Engine");
    assert_eq!(w.width(), 800);
    assert_eq!(w.height(), 600);
    assert_eq!(w.title(), "CAD-3E Engine");
}

#[test]
fn resize_applies_only_with_surface_and_non_zero_size() {
    let mut w = Window::new(800, 600, "t");
    assert!(!w.resize(false, 1024, 768));
    assert_eq!((w.width(), w.height()), (800, 600));
    assert!(!w.resize(true, 0, 768));
    assert!(!w.resize(true, 1024, 0));
    assert_eq!((w.width(), w.height()), (800, 600));
    assert!(w.resize(true, 1024, 768));
    assert_eq!((w.width(), w.height()), (1024, 768));
    assert_eq!(w.title(), "t");
}

#[test]
fn created_size_is_recorded() {
    let mut w = Window::new(800, 600, "t");
    w.record_created_size(1600, 1200);
    assert_eq!((w.width(), w.height()), (1600, 1200));
}

#[test]
fn best_config_takes_most_samples_first_on_ties() {
    assert_eq!(best_config(&vec![0]), 0);
    assert_eq!(best_config(&vec![0, 4, 2, 4]), 1);
    assert_eq!(best_config(&vec![8, 4, 8]), 0);
    assert_eq!(best_config(&vec![1, 2, 16]), 2);
}
