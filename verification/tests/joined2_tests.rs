use fmt::joined2::DisplayIteratorJoined;
use fmt::num::Num;
use fmt::render::Renderable;
use fmt::text::Text;

fn nums() -> Vec<Num> {
    vec![Num::new(1), Num::new(2), Num::new(3), Num::new(4), Num::new(5)]
}

#[test]
fn joined2_test_counter() {
    let separator = " ";
    let final_separator = "";

    let joined = DisplayIteratorJoined::new(nums(), Text::new(separator), Text::new(final_separator));
    assert_eq!(&joined.to_string(), "1 2 3 4 5");

    let separator = ", ";
    let final_separator = "";
    let joined = DisplayIteratorJoined::new(nums(), Text::new(separator), Text::new(final_separator));
    assert_eq!(&joined.to_string(), "1, 2, 3, 4, 5");
}
