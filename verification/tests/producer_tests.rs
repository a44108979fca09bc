use fmt::joined2::DisplayIteratorJoined;
use fmt::num::Num;
use fmt::producer::CloneProducer;
use fmt::producer::CopyProducer;
use fmt::producer::DisplayProducer;
use fmt::producer::FnProducer;
use fmt::render::Renderable;
use fmt::style::Style;
use fmt::text::Text;

#[test]
fn fn_producer() {
    let p = FnProducer::new(|| Text::new("42"));
    assert_eq!("42", p.display().to_string());
    assert_eq!("42", p.display().to_string());

    let data = vec![1u64, 2, 3, 4, 5, 6, 7, 8];
    let p = FnProducer::new(|| {
        let items: Vec<Num> = data.iter().filter(|x| **x > 4).map(|x| Num::new(*x)).collect();
        DisplayIteratorJoined::new(items, Text::new(", "), Text::new(""))
    });
    assert_eq!("5, 6, 7, 8", p.display().to_string());
    assert_eq!("5, 6, 7, 8", p.display().to_string());
}

#[test]
fn copy_producer() {
    let producer = CopyProducer::new(Style::new_display(42));
    assert_eq!("42", producer.display().to_string());
    assert_eq!("42", producer.display().to_string());
}

#[test]
fn clone_producer() {
    let producer = CloneProducer::new(Text::new("42"));
    assert_eq!("42", producer.display().to_string());
    assert_eq!("42", producer.display().to_string());

    let producer = CloneProducer::new(Text::new("42"));
    assert_eq!("42", producer.display().to_string());
    assert_eq!("42", producer.display().to_string());
}
