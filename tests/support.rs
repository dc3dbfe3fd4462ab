use httpqueue::callbacks::CallbackList;
use httpqueue::event::Event;

#[test]
fn callbacks_by_token() {
    let mut list: CallbackList<String> = CallbackList::new();
    let a = list.add(String::from("a"));
    let b = list.add(String::from("a"));
    let c = list.add(String::from("c"));
    assert_ne!(a, b);
    assert_ne!(b, c);
    assert_eq!(list.len(), 3);
    list.remove(b);
    let left: Vec<String> = list.extract().into_iter().cloned().collect();
    assert_eq!(left, vec![String::from("a"), String::from("c")]);
    list.remove(b);
    assert_eq!(list.len(), 2);
    list.clear();
    assert_eq!(list.len(), 0);
    let d = list.add(String::from("d"));
    assert_ne!(d, a);
    assert_ne!(d, c);
}

#[test]
fn event_sets_once() {
    let mut e = Event::new();
    assert_eq!(e.value(), None);
    assert!(e.set(true));
    assert!(!e.set(false));
    assert_eq!(e.value(), Some(true));
}
