use latex::{List, ListKind};

#[test]
fn push_item_to_list() {
    let mut list = List::new(ListKind::Itemize);

    assert_eq!(list.items.len(), 0);
    list.push("Hello World");
    assert_eq!(list.items.len(), 1);
}
