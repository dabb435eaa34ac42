use gsearch::search::{Engines, SearchArguments, SearchResult, SearchTask};
use gsearch::search_queue::{ProcessorStart, SearchTaskQueue};

fn task(q: &str) -> SearchTask {
    SearchTask { engine: Engines::GoogleAlt, query: q.into(), args: None }
}

fn one_result(t: &str) -> Vec<SearchResult> {
    vec![SearchResult {
        title: t.into(),
        link: String::new(),
        cite: String::new(),
        image: String::new(),
        description: String::new(),
        updated: String::new(),
        page: 1,
    }]
}

#[test]
fn numbering_and_processor_start() {
    let mut q = SearchTaskQueue::new();
    assert_eq!(q.get_last_finished_task_id(), 1000);
    assert!(q.get_result().is_empty());
    assert!(!q.is_running());
    assert_eq!(q.add_task(task("rust")), 0);
    assert_eq!(q.start_processor(), ProcessorStart::Spawn);
    assert_eq!(q.add_task(task("python")), 1);
    assert_eq!(q.start_processor(), ProcessorStart::Notify);
    assert_eq!(q.add_task(task("golang")), 2);
    assert!(q.is_running());
}

#[test]
fn numbers_wrap_at_one_hundred() {
    let mut q = SearchTaskQueue::new();
    let mut last = 0;
    for i in 0..101 {
        last = q.add_task(task("x"));
        assert_eq!(last, (i % 100) as u32);
    }
    assert_eq!(last, 0);
}

#[test]
fn newest_task_survives() {
    let mut q = SearchTaskQueue::new();
    q.add_task(task("rust"));
    q.start_processor();
    let first = q.next_task().unwrap();
    assert_eq!(first.id, 0);
    assert_eq!(first.task.query, "rust");
    // the queue is empty again, so numbering starts over
    assert_eq!(q.add_task(task("python")), 0);
    assert_eq!(q.add_task(task("golang")), 1);
    assert_eq!(q.add_task(task("typescript")), 2);
    assert!(q.finish_task(one_result("R")));
    assert_eq!(q.get_last_finished_task_id(), 0);
    assert_eq!(q.get_result(), one_result("R"));
    let next = q.next_task().unwrap();
    assert_eq!(next.id, 2);
    assert_eq!(next.task.query, "typescript");
    assert!(q.next_task().is_none());
    assert!(!q.finish_task(one_result("T")));
    assert!(!q.is_running());
    assert_eq!(q.get_last_finished_task_id(), 2);
    // an empty queue numbers from zero again
    assert_eq!(q.add_task(task("sveltekit")), 0);
    assert_eq!(q.start_processor(), ProcessorStart::Spawn);
}

#[test]
fn single_waiting_task_is_kept() {
    let mut q = SearchTaskQueue::new();
    q.add_task(task("a"));
    let a = q.next_task().unwrap();
    q.add_task(task("b"));
    assert!(q.finish_task(Vec::new()));
    assert_eq!(q.next_task().unwrap().task.query, "b");
}

#[test]
fn stopping() {
    let mut q = SearchTaskQueue::new();
    q.add_task(task("a"));
    q.add_task(task("b"));
    assert!(!q.stop());
    assert!(q.next_task().is_none());
    q.add_task(task("c"));
    q.start_processor();
    assert!(q.stop());
    assert!(!q.is_running());
    assert!(q.next_task().is_none());
    let _ = SearchArguments::new(1, 1);
}

#[test]
fn taken_task_is_the_one_finished() {
    let mut q = SearchTaskQueue::new();
    assert_eq!(q.taken_task_id(), None);
    q.add_task(task("a"));
    q.add_task(task("b"));
    let a = q.next_task().unwrap();
    assert_eq!(q.taken_task_id(), Some(a.id));
    assert!(q.finish_task(Vec::new()));
    assert_eq!(q.taken_task_id(), None);
    assert_eq!(q.get_last_finished_task_id(), 0);
    // an empty queue leaves the taken number alone
    let b = q.next_task().unwrap();
    assert_eq!(b.id, 1);
    assert!(q.next_task().is_none());
    assert_eq!(q.taken_task_id(), Some(1));
    assert!(!q.finish_task(Vec::new()));
    assert_eq!(q.get_last_finished_task_id(), 1);
}

#[test]
fn newest_task_taken_within_two_rounds() {
    let mut q = SearchTaskQueue::new();
    for name in ["a", "b", "c", "d"] {
        q.add_task(task(name));
    }
    let first = q.next_task().unwrap();
    assert_eq!(first.task.query, "a");
    assert!(q.finish_task(Vec::new()));
    let second = q.next_task().unwrap();
    assert_eq!(second.task.query, "d");
    assert!(!q.finish_task(Vec::new()));
    assert!(q.next_task().is_none());
}
