use mandala_smart_book::gallery::{is_image_file, Gallery, GalleryError};
use std::path::PathBuf;

fn paths(n: usize) -> Vec<PathBuf> {
    (0..n).map(|i| PathBuf::from(format!("/pictures/{i}.jpg"))).collect()
}

fn sorted(mut v: Vec<PathBuf>) -> Vec<PathBuf> {
    v.sort();
    v
}

#[test]
fn empty_gallery_is_refused() {
    assert_eq!(Gallery::new(Vec::new()).unwrap_err(), GalleryError::NoImages);
}

#[test]
fn gallery_keeps_all_images() {
    let g = Gallery::new(paths(20)).unwrap();
    let mut seen = Vec::new();
    let mut g = g;
    for _ in 0..20 {
        seen.push(g.image().clone());
        g.next();
    }
    assert_eq!(sorted(seen), sorted(paths(20)));
}

#[test]
fn gallery_wraps_around_with_the_same_images() {
    let mut g = Gallery::new(paths(3)).unwrap();
    for _ in 0..3 {
        g.next();
    }
    let mut seen = Vec::new();
    for _ in 0..3 {
        seen.push(g.image().clone());
        g.next();
    }
    assert_eq!(sorted(seen), sorted(paths(3)));
}

#[test]
fn single_image_gallery() {
    let mut g = Gallery::new(paths(1)).unwrap();
    g.next();
    assert_eq!(*g.image(), PathBuf::from("/pictures/0.jpg"));
    assert_eq!(g.clone(), g);
}

#[test]
fn image_file_names() {
    assert!(is_image_file(Some(".jpg".to_string()), true));
    assert!(is_image_file(Some(".JPG".to_string()), true));
    assert!(!is_image_file(Some(".jpg".to_string()), false));
    assert!(!is_image_file(Some("photo.jpg".to_string()), true));
    assert!(!is_image_file(Some(".png".to_string()), true));
    assert!(!is_image_file(None, true));
}

#[test]
fn gallery_order_is_shuffled() {
    // Twenty images keep their listed order with probability 1/20! per gallery.
    let listed = paths(20);
    let orders: Vec<Vec<PathBuf>> = (0..4)
        .map(|_| {
            let mut g = Gallery::new(paths(20)).unwrap();
            (0..20)
                .map(|_| {
                    let p = g.image().clone();
                    g.next();
                    p
                })
                .collect()
        })
        .collect();
    assert!(orders.iter().any(|o| *o != listed));
}

#[test]
fn cloned_gallery_shows_the_same_images() {
    let mut g = Gallery::new(paths(5)).unwrap();
    g.next();
    let mut c = g.clone();
    for _ in 0..4 {
        assert_eq!(c.image(), g.image());
        c.next();
        g.next();
    }
}
