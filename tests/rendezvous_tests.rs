use openai_gateway::rendezvous::{wait_step, Delivery, ImageTaskResult, TaskRegistry, WaitStep};

fn result(tag: &str) -> ImageTaskResult {
    ImageTaskResult { urls: vec![format!("https://cdn/{}.png", tag)], ipfs_urls: vec![format!("cid://{}", tag)] }
}

#[test]
fn published_result_is_seen_by_the_waiter() {
    let mut reg = TaskRegistry::new();
    reg.create_task(7, Some("http://client/cb".to_string()));
    assert!(reg.poll_task_result(7).is_none());
    assert!(reg.set_task_result(7, result("x")));
    let seen = reg.poll_task_result(7).unwrap();
    assert_eq!(seen.urls, vec!["https://cdn/x.png".to_string()]);
    assert_eq!(seen.ipfs_urls, vec!["cid://x".to_string()]);
    // a second wait returns at once with the same value
    assert_eq!(reg.poll_task_result(7).unwrap().urls, seen.urls);
}

#[test]
fn first_publication_wins() {
    let mut reg = TaskRegistry::new();
    reg.create_task(1, None);
    assert!(reg.set_task_result(1, result("a")));
    assert!(!reg.set_task_result(1, result("b")));
    assert_eq!(reg.poll_task_result(1).unwrap().ipfs_urls, vec!["cid://a".to_string()]);
}

#[test]
fn publishing_without_rendezvous_does_nothing() {
    let mut reg = TaskRegistry::new();
    assert!(!reg.set_task_result(3, result("a")));
    assert!(reg.poll_task_result(3).is_none());
    assert!(reg.get_task(3).is_none());
}

#[test]
fn snapshot_and_removal() {
    let mut reg = TaskRegistry::new();
    reg.create_task(5, Some("http://client/cb".to_string()));
    let snap = reg.get_task(5).unwrap();
    assert_eq!(snap.callback_url.as_deref(), Some("http://client/cb"));
    assert!(snap.result.is_none());
    reg.remove_task(5);
    assert!(reg.get_task(5).is_none());
    assert!(reg.poll_task_result(5).is_none());
}

#[test]
fn registering_again_replaces_the_rendezvous() {
    let mut reg = TaskRegistry::new();
    reg.create_task(9, Some("http://a".to_string()));
    assert!(reg.set_task_result(9, result("a")));
    reg.create_task(9, None);
    let snap = reg.get_task(9).unwrap();
    assert!(snap.callback_url.is_none());
    assert!(snap.result.is_none());
}

#[test]
fn wait_steps() {
    match wait_step(Some(result("x")), false) {
        WaitStep::Done(Some(r)) => assert_eq!(r.ipfs_urls, vec!["cid://x".to_string()]),
        _ => panic!("a filled slot ends the wait"),
    }
    assert!(matches!(wait_step(None, true), WaitStep::Done(None)));
    assert!(matches!(wait_step(None, false), WaitStep::KeepWaiting));
    assert!(matches!(wait_step(Some(result("y")), true), WaitStep::Done(Some(_))));
}

#[test]
fn delivery_during_the_wait_goes_to_the_waiter() {
    let mut reg = TaskRegistry::new();
    reg.create_task(11, Some("http://client/cb".to_string()));
    assert_eq!(reg.deliver_result(11, result("x")), Delivery::ToWaiter);
    let seen = reg.poll_task_result(11).unwrap();
    assert_eq!(seen.ipfs_urls, vec!["cid://x".to_string()]);
    assert!(reg.get_task(11).is_some());
}

#[test]
fn delivery_after_the_wait_goes_to_the_callback() {
    let mut reg = TaskRegistry::new();
    reg.create_task(12, Some("http://client/cb".to_string()));
    assert!(reg.detach_task(12).is_none());
    assert!(reg.get_task(12).unwrap().detached);
    assert_eq!(reg.deliver_result(12, result("x")), Delivery::ToCallback(Some("http://client/cb".to_string())));
    assert!(reg.get_task(12).is_none());
    assert_eq!(reg.deliver_result(12, result("y")), Delivery::NoRendezvous);
}

#[test]
fn late_delivery_without_callback() {
    let mut reg = TaskRegistry::new();
    reg.create_task(13, None);
    assert!(reg.detach_task(13).is_none());
    assert_eq!(reg.deliver_result(13, result("x")), Delivery::ToCallback(None));
}

#[test]
fn giving_up_after_publication_still_hands_over_the_result() {
    let mut reg = TaskRegistry::new();
    reg.create_task(14, None);
    assert!(reg.set_task_result(14, result("x")));
    let r = reg.detach_task(14).unwrap();
    assert_eq!(r.urls, vec!["https://cdn/x.png".to_string()]);
    assert!(reg.get_task(14).is_none());
    assert!(reg.detach_task(14).is_none());
}
