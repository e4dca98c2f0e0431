use concurrent_queue::{Error, Queue};

#[test]
fn push_test() -> Result<(), Error> {
    let q = Queue::new();
    q.push("first")?;
    q.push("second")?;
    let want = vec!["first", "second"];
    let got = q.to_vec()?;
    assert_eq!(want, got);
    Ok(())
}

#[test]
fn pop_test() -> Result<(), Error> {
    let q = Queue::new();
    q.push("first")?;
    q.push("second")?;
    q.push("third")?;
    q.push("fourth")?;
    let want = Some("first");
    let got = q.pop()?;
    assert_eq!(want, got);
    let want = vec!["second", "third", "fourth"];
    let got = q.to_vec()?;
    assert_eq!(want, got);
    Ok(())
}

#[test]
fn is_empty_test() -> Result<(), Error> {
    let q = Queue::new();
    q.push("test")?;
    let _ = q.pop()?;
    assert!(q.is_empty()?);
    Ok(())
}

#[test]
fn clear_test() -> Result<(), Error> {
    let q = Queue::new();
    q.push("first")?;
    q.push("second")?;
    q.clear()?;
    assert!(q.is_empty()?);
    Ok(())
}

#[test]
fn new_queue_is_empty() {
    let q: Queue<u32> = Queue::new();
    assert_eq!(q.is_empty(), Ok(true));
    assert_eq!(q.to_vec(), Ok(vec![]));
}

#[test]
fn pops_return_pushes_in_order() {
    let q = Queue::new();
    for i in 0..100u32 {
        q.push(i).unwrap();
    }
    for i in 0..100u32 {
        assert_eq!(q.pop(), Ok(Some(i)));
    }
    assert_eq!(q.is_empty(), Ok(true));
}

#[test]
fn pop_on_empty_changes_nothing() {
    let q: Queue<&str> = Queue::new();
    assert_eq!(q.pop(), Ok(None));
    assert_eq!(q.pop(), Ok(None));
    assert_eq!(q.is_empty(), Ok(true));
    q.push("a").unwrap();
    assert_eq!(q.pop(), Ok(Some("a")));
    assert_eq!(q.pop(), Ok(None));
    assert_eq!(q.to_vec(), Ok(vec![]));
}

#[test]
fn not_empty_until_drained() {
    let q = Queue::new();
    q.push(1u8).unwrap();
    q.push(2u8).unwrap();
    assert_eq!(q.is_empty(), Ok(false));
    q.pop().unwrap();
    assert_eq!(q.is_empty(), Ok(false));
    q.pop().unwrap();
    assert_eq!(q.is_empty(), Ok(true));
}

#[test]
fn clear_on_empty_and_reuse() {
    let q = Queue::new();
    q.clear().unwrap();
    assert_eq!(q.is_empty(), Ok(true));
    q.push(7i64).unwrap();
    q.push(7i64).unwrap();
    q.clear().unwrap();
    q.push(8i64).unwrap();
    assert_eq!(q.to_vec(), Ok(vec![8]));
}

#[test]
fn equal_items_are_all_kept() {
    let q = Queue::new();
    q.push("x").unwrap();
    q.push("x").unwrap();
    q.push("y").unwrap();
    q.push("x").unwrap();
    assert_eq!(q.to_vec(), Ok(vec!["x", "x", "y", "x"]));
    assert_eq!(q.pop(), Ok(Some("x")));
    assert_eq!(q.pop(), Ok(Some("x")));
    assert_eq!(q.pop(), Ok(Some("y")));
    assert_eq!(q.pop(), Ok(Some("x")));
}

#[test]
fn clones_share_one_sequence() {
    let a = Queue::new();
    let b = a.clone();
    a.push(String::from("one")).unwrap();
    b.push(String::from("two")).unwrap();
    assert_eq!(a.to_vec(), Ok(vec![String::from("one"), String::from("two")]));
    assert_eq!(b.pop(), Ok(Some(String::from("one"))));
    assert_eq!(a.pop(), Ok(Some(String::from("two"))));
    assert_eq!(b.is_empty(), Ok(true));
}

#[test]
fn interleaved_handles_lose_nothing() {
    let handles: Vec<Queue<u32>> = {
        let q = Queue::new();
        (0..4).map(|_| q.clone()).collect()
    };
    for m in 0..25u32 {
        for (n, h) in handles.iter().enumerate() {
            h.push(n as u32 * 1000 + m).unwrap();
        }
    }
    let mut got = handles[0].to_vec().unwrap();
    assert_eq!(got.len(), 100);
    got.sort();
    let mut want: Vec<u32> = (0..4u32)
        .flat_map(|n| (0..25u32).map(move |m| n * 1000 + m))
        .collect();
    want.sort();
    assert_eq!(got, want);
}
