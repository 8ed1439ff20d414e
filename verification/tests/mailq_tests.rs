use faculty_core::mailq::{MailQueue, DEFAULT_MAIL_QUEUE_CAPACITY};
use faculty_core::sessions::OutboundEmail;

fn mail(n: u64) -> OutboundEmail {
    OutboundEmail::new(
        format!("u{}@stud.hs-kempten.de", n),
        n,
        "user",
        "ABCDEFGHIJKLMNO".to_string(),
    )
}

#[test]
fn mails_leave_in_arrival_order() {
    let mut q = MailQueue::new(10);
    q.enqueue(mail(1)).unwrap();
    q.enqueue(mail(2)).unwrap();
    q.enqueue(mail(3)).unwrap();
    assert_eq!(q.dequeue().unwrap().user_id, 1);
    assert_eq!(q.dequeue().unwrap().user_id, 2);
    assert_eq!(q.dequeue().unwrap().user_id, 3);
    assert!(q.dequeue().is_none());
}

#[test]
fn a_full_queue_hands_the_mail_back() {
    let mut q = MailQueue::new(2);
    q.enqueue(mail(1)).unwrap();
    q.enqueue(mail(2)).unwrap();
    let refused = q.enqueue(mail(3));
    match refused {
        Err(back) => assert_eq!(back.user_id, 3),
        Ok(()) => panic!("a queue at its bound must refuse the mail"),
    }
    // Draining one slot makes room again.
    assert_eq!(q.dequeue().unwrap().user_id, 1);
    q.enqueue(mail(3)).unwrap();
    assert_eq!(q.len(), 2);
}

#[test]
fn each_mail_is_consumed_exactly_once() {
    let mut q = MailQueue::new(DEFAULT_MAIL_QUEUE_CAPACITY);
    for n in 0..5 {
        q.enqueue(mail(n)).unwrap();
    }
    let mut seen = Vec::new();
    while let Some(m) = q.dequeue() {
        seen.push(m.user_id);
    }
    assert_eq!(seen, vec![0, 1, 2, 3, 4]);
    assert_eq!(q.len(), 0);
}
