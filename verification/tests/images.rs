use aish::images::ImageQueue;

fn names(q: &ImageQueue) -> Vec<String> {
    q.images.iter().map(|i| i.name.clone()).collect()
}

#[test]
fn add_paths_keeps_only_images() {
    let mut q = ImageQueue::new();
    let paths = vec![
        "/tmp/a.PNG".to_string(),
        "/tmp/notes.pdf".to_string(),
        "/tmp/dir/b.jpeg".to_string(),
        "/tmp/noext".to_string(),
    ];
    assert_eq!(q.add_paths(&paths, false), 2);
    assert_eq!(names(&q), vec!["a.PNG", "b.jpeg"]);
    assert_eq!(q.images[1].path, "/tmp/dir/b.jpeg");
}

#[test]
fn add_paths_refused_while_uploading() {
    let mut q = ImageQueue::new();
    assert_eq!(q.add_paths(&vec!["/tmp/a.png".to_string()], true), 0);
    assert!(q.images.is_empty());
}

#[test]
fn remove_image_by_index() {
    let mut q = ImageQueue::new();
    q.add_paths(&vec!["/a.png".into(), "/b.png".into(), "/c.png".into()], false);
    q.remove(1);
    assert_eq!(names(&q), vec!["a.png", "c.png"]);
    q.remove(7);
    assert_eq!(names(&q), vec!["a.png", "c.png"]);
}

#[test]
fn aborted_batch_drops_the_uploaded_prefix() {
    let mut q = ImageQueue::new();
    q.add_paths(&vec!["/a.png".into(), "/b.png".into(), "/c.png".into()], false);
    assert!(!q.finish_batch(Some((2, 3))));
    assert_eq!(names(&q), vec!["c.png"]);
    assert!(!q.finish_batch(Some((5, 5))));
    assert!(q.images.is_empty());
}

#[test]
fn completed_batch_clears_queue_and_text() {
    let mut q = ImageQueue::new();
    q.add_paths(&vec!["/a.png".into()], false);
    assert!(q.finish_batch(None));
    assert!(q.images.is_empty());
}
