use fmt::joined::DisplayIteratorJoined;
use fmt::num::Num;
use fmt::text::Text;

fn nums() -> Vec<Num> {
    vec![Num::new(1), Num::new(2), Num::new(3), Num::new(4), Num::new(5)]
}

#[test]
fn joined_test_counter() {
    let separator = " ";

    let mut joined = DisplayIteratorJoined::new(nums(), Text::new(separator));
    assert_eq!(&joined.to_string().unwrap(), "1 2 3 4 5");

    let separator = ", ";
    let mut joined = DisplayIteratorJoined::new(nums(), Text::new(separator));
    assert_eq!(&joined.to_string().unwrap(), "1, 2, 3, 4, 5");
}
