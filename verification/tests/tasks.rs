use rimi::color::ColorType;
use rimi::image_data::ImageData;
use rimi::queue::{TaskQueue, TaskState};

#[test]
fn ids_are_assigned_in_order() {
    let mut q = TaskQueue::new();
    assert_eq!(q.new_task("a.png"), 1);
    assert_eq!(q.new_task("b.png"), 2);
    assert_eq!(q.new_task("c.png"), 3);
    let t = q.task_by_id(2).unwrap();
    assert_eq!(t.image_path, "b.png");
    assert_eq!(t.out_path, "");
    assert!(matches!(t.state, TaskState::Pending));
    assert!(q.task_by_id(9).is_none());
}

#[test]
fn failure_is_sticky() {
    let mut q = TaskQueue::new();
    let id = q.new_task("a.png");
    q.set_failed(id, "decode exploded".to_string());
    let img = ImageData::new(4, 4, ColorType::Rgb8);
    q.set_decoded(&img, id);
    q.set_processed(&img, id);
    q.set_completed(id);
    q.working_task(id);
    let t = q.task_by_id(id).unwrap();
    assert!(t.state.is_failed());
    assert!(q.has_failures());
    assert_eq!(q.count_failures(), 1);
    let failed = q.failed_tasks();
    assert_eq!(failed.len(), 1);
    assert_eq!(failed[0].image_path, "a.png");
}

#[test]
fn out_path_only_lands_on_live_decoded_tasks() {
    let mut q = TaskQueue::new();
    let a = q.new_task("a.png");
    let b = q.new_task("b.png");
    let img = ImageData::new(4, 4, ColorType::Rgb8);
    q.set_decoded(&img, a);
    q.set_out_path(a, "out/a.png");
    q.set_out_path(b, "out/b.png");
    assert_eq!(q.task_by_id(a).unwrap().out_path, "out/a.png");
    assert_eq!(q.task_by_id(b).unwrap().out_path, "");

    q.set_failed(a, "boom".to_string());
    assert_eq!(q.task_by_id(a).unwrap().out_path, "");
}

#[test]
fn pops_never_hand_out_the_same_task() {
    let mut q = TaskQueue::new();
    let img = ImageData::new(4, 4, ColorType::Rgb8);
    for name in ["a.png", "b.png", "c.png"] {
        let id = q.new_task(name);
        q.set_decoded(&img, id);
    }
    let first = q.pop_decoded().unwrap();
    let second = q.pop_decoded().unwrap();
    let third = q.pop_decoded().unwrap();
    assert_ne!(first, second);
    assert_ne!(first, third);
    assert_ne!(second, third);
    assert!(q.pop_decoded().is_none());
}

#[test]
fn pop_commit_round_trip() {
    let mut q = TaskQueue::new();
    let img = ImageData::new(4, 4, ColorType::Rgb8);
    let a = q.new_task("a.png");
    let b = q.new_task("b.png");
    q.decoded_task(&img, a);
    q.decoded_task(&img, b);
    assert_eq!(q.decoded_ids(), vec![a, b]);
    assert_eq!(q.decoded_task_ids(), vec![a, b]);

    let popped = q.pop_decoded().unwrap();
    assert_eq!(popped, a);
    q.processed_task(&img, popped);
    assert_eq!(q.processed_tasks().len(), 1);

    let popped = q.pop_decoded().unwrap();
    assert_eq!(popped, b);
    q.fail_task(popped, "operation failed".to_string());

    let saved = q.pop_processed().unwrap();
    assert_eq!(saved, a);
    q.completed_task(saved);
    assert!(q.pop_processed().is_none());

    assert_eq!(q.completed_tasks().len(), 1);
    assert_eq!(q.count_failures(), 1);
    assert_eq!(q.tasks.len(), 2);
}

#[test]
fn queue_never_loses_tasks() {
    let mut q = TaskQueue::new();
    let img = ImageData::new(4, 4, ColorType::Rgb8);
    for i in 0..10u32 {
        let id = q.new_task(&format!("img{}.png", i));
        if i % 2 == 0 {
            q.set_decoded(&img, id);
        } else {
            q.set_failed(id, "bad file".to_string());
        }
    }
    assert_eq!(q.tasks.len(), 10);
    assert_eq!(q.decoded_tasks().len(), 5);
    assert_eq!(q.count_failures(), 5);
}

#[test]
fn failures_pair_paths_with_reasons() {
    let mut q = TaskQueue::new();
    let img = ImageData::new(4, 4, ColorType::Rgb8);
    let a = q.new_task("a.png");
    let b = q.new_task("b.png");
    let c = q.new_task("c.png");
    q.set_decoded(&img, a);
    q.set_failed(b, "not found".to_string());
    q.set_failed(c, "corrupt data".to_string());
    let failures = q.failures();
    assert_eq!(
        failures,
        vec![
            ("b.png".to_string(), "not found".to_string()),
            ("c.png".to_string(), "corrupt data".to_string()),
        ]
    );
}
