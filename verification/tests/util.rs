use std::cell::RefCell;

use takyon::task::Poll;
use takyon::util::{or, try_zip, zip};

fn ready<T>(t: T) -> Poll<T> {
    Poll::Ready(t)
}

fn not_polled<T>() -> Poll<T> {
    panic!("polled")
}

#[test]
fn or_prefers_the_first_future() {
    assert_eq!(or(|| ready(1), || not_polled()), Poll::Ready(1));
    assert_eq!(or(|| Poll::Pending, || ready(2)), Poll::Ready(2));
    assert_eq!(or(|| Poll::<u8>::Pending, || Poll::Pending), Poll::Pending);
}

#[test]
fn zip_waits_for_both() {
    let mut z = zip();
    assert_eq!(z.poll(|| ready(1), || ready('a')), Poll::Ready((1, 'a')));

    let mut z = zip();
    assert_eq!(z.poll(|| ready(1), || Poll::<char>::Pending), Poll::Pending);
    assert_eq!(z.poll(|| not_polled(), || Poll::Pending), Poll::Pending);
    assert_eq!(z.poll(|| not_polled(), || ready('b')), Poll::Ready((1, 'b')));

    let mut z = zip();
    assert_eq!(z.poll(|| Poll::<u8>::Pending, || ready('c')), Poll::Pending);
    assert_eq!(z.poll(|| ready(2), || not_polled()), Poll::Ready((2, 'c')));
}

#[test]
fn zip_polls_the_first_future_first() {
    let polled = RefCell::new(Vec::new());
    let mut z = zip::<u8, u8>();
    let poll = z.poll(
        || {
            polled.borrow_mut().push(1);
            Poll::Pending
        },
        || {
            polled.borrow_mut().push(2);
            Poll::Pending
        },
    );
    assert_eq!(poll, Poll::Pending);
    assert_eq!(polled.into_inner(), vec![1, 2]);
}

#[test]
fn try_zip_waits_for_both() {
    let mut z = try_zip();
    assert_eq!(
        z.poll(|| ready(Ok::<u8, &str>(1)), || ready(Ok::<char, &str>('a'))),
        Poll::Ready(Ok((1, 'a')))
    );

    let mut z = try_zip();
    assert_eq!(
        z.poll(|| ready(Ok::<u8, &str>(1)), || Poll::<Result<char, &str>>::Pending),
        Poll::Pending
    );
    assert_eq!(
        z.poll(|| not_polled(), || ready(Ok::<char, &str>('b'))),
        Poll::Ready(Ok((1, 'b')))
    );
}

#[test]
fn try_zip_stops_at_the_first_error() {
    let mut z = try_zip::<u8, char>();
    assert_eq!(z.poll(|| ready(Err("bad")), || not_polled()), Poll::Ready(Err("bad")));

    let mut z = try_zip::<u8, char>();
    assert_eq!(z.poll(|| Poll::Pending, || ready(Err("bad"))), Poll::Ready(Err("bad")));

    let mut z = try_zip::<u8, char>();
    assert_eq!(z.poll(|| ready(Ok(1)), || Poll::<Result<char, &str>>::Pending), Poll::Pending);
    assert_eq!(z.poll(|| not_polled(), || ready(Err("late"))), Poll::Ready(Err("late")));
}
