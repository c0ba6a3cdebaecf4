use rustlabs::shaurma::{App, Kind, Message, Shaurma, Size, Supplements};

#[test]
fn base_prices() {
    assert_eq!(Shaurma::new(Kind::Classic, Size::Small).price(), 100);
    assert_eq!(Shaurma::new(Kind::Classic, Size::Large).price(), 170);
    assert_eq!(Shaurma::new(Kind::Cheese, Size::Medium).price(), 160);
    assert_eq!(Shaurma::new(Kind::Cesar, Size::Small).price(), 125);
    assert_eq!(Shaurma::new(Kind::Meat, Size::Large).price(), 190);
    assert_eq!(Shaurma::new(Kind::Beef, Size::Large).price(), 215);
}

#[test]
fn extras_add_up() {
    let mut s = Shaurma::new(Kind::Beef, Size::Large);
    s.cheese = true;
    assert_eq!(s.price(), 230);
    s.mushrooms = true;
    assert_eq!(s.price(), 255);
    s.jalopenos = true;
    assert_eq!(s.price(), 275);
}

#[test]
fn new_has_no_extras() {
    let s = Shaurma::new(Kind::Cesar, Size::Medium);
    assert!(!s.cheese && !s.mushrooms && !s.jalopenos);
    assert_eq!(s.kind, Kind::Cesar);
    assert_eq!(s.size, Size::Medium);
}

#[test]
fn labels() {
    assert_eq!(Kind::Classic.label(), "Классическая");
    assert_eq!(Kind::Beef.label(), "С говядиной");
    assert_eq!(Size::Small.label(), "Мини");
    assert_eq!(Size::Large.label(), "Большая");
    assert_ne!(Supplements::Cheese, Supplements::Mushrooms);
}

#[test]
fn order_form_flow() {
    let mut app = App::new();
    assert_eq!(app.title(), "Шаурма");
    assert_eq!(app.shaurma, Shaurma::new(Kind::Classic, Size::Small));
    assert!(!app.ordered);
    app.update(Message::SelectKind(Kind::Meat));
    app.update(Message::SelectSize(Size::Medium));
    app.update(Message::AdditionalMushrooms(true));
    assert_eq!(app.shaurma.price(), 185);
    app.update(Message::Order);
    assert!(app.ordered);
    app.update(Message::Order);
    assert!(app.ordered);
    app.update(Message::AdditionalJalopenos(true));
    assert!(!app.ordered);
    assert_eq!(app.shaurma.price(), 205);
    app.update(Message::AdditionalCheese(true));
    app.update(Message::AdditionalMushrooms(false));
    assert_eq!(app.shaurma.price(), 195);
}
