use futures_from_scratch::args::Args;

#[test]
fn options_default_to_one_message_at_once() {
    let args = Args::new(String::from("fortune"));
    assert_eq!(
        args,
        Args { message: String::from("fortune"), repeat: 1, delay: 0, wait: false }
    );
}
