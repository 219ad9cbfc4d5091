use order_book::{Order, Reply};

#[test]
fn success_is_written_as_success() {
    assert_eq!(Reply::Success.to_text(), "success");
}

#[test]
fn fail_is_written_as_fail() {
    assert_eq!(Reply::Fail.to_text(), "fail");
}

#[test]
fn written_answer_reads_back() {
    for reply in [Reply::Success, Reply::Fail] {
        assert_eq!(Reply::from_text(&reply.to_text()), Some(reply));
    }
}

#[test]
fn other_text_is_no_answer() {
    assert_eq!(Reply::from_text(&String::new()), None);
    assert_eq!(Reply::from_text(&"Success".to_owned()), None);
    assert_eq!(Reply::from_text(&"success ".to_owned()), None);
    assert_eq!(Reply::from_text(&"failed".to_owned()), None);
    assert_eq!(Reply::from_text(&"fai".to_owned()), None);
}

#[test]
fn orders_compare_by_kind() {
    assert_eq!(Order::BUY, Order::BUY);
    assert_ne!(Order::BUY, Order::SELL);
    let copy = Order::SELL;
    assert_eq!(copy.clone(), Order::SELL);
    assert_eq!(format!("{:?}", Order::BUY), "BUY");
}
