//! A shawarma order form: the menu, the price of an order, and the form's reaction to each message.

use vstd::prelude::*;

verus! {

/// The recipe of a shawarma.
#[derive(Clone, Copy, Debug, PartialEq, PartialOrd, Eq, Ord, Structural)]
pub enum Kind {
    Classic,
    Cheese,
    Cesar,
    Meat,
    Beef,
}

/// The size of a shawarma.
#[derive(Clone, Copy, Debug, PartialEq, PartialOrd, Eq, Ord, Structural)]
pub enum Size {
    Small,
    Medium,
    Large,
}

/// The extras that can be added to any shawarma.
#[derive(Clone, Copy, Debug, PartialEq, PartialOrd, Eq, Ord, Structural)]
pub enum Supplements {
    Cheese,
    Mushrooms,
    Jalopenos,
}

/// What a recipe is called on the menu.
pub open spec fn kind_label(kind: Kind) -> Seq<char> {
    match kind {
        Kind::Classic => "Классическая"@,
        Kind::Cheese => "Сырная"@,
        Kind::Cesar => "Цезарь"@,
        Kind::Meat => "Мясная"@,
        Kind::Beef => "С говядиной"@,
    }
}

/// What a size is called on the menu.
pub open spec fn size_label(size: Size) -> Seq<char> {
    match size {
        Size::Small => "Мини"@,
        Size::Medium => "Средняя"@,
        Size::Large => "Большая"@,
    }
}

/// The menu price, in roubles, of a recipe in a size, before extras.
pub open spec fn base_price(kind: Kind, size: Size) -> int {
    match (kind, size) {
        (Kind::Classic, Size::Small) => 100,
        (Kind::Classic, Size::Medium) => 140,
        (Kind::Classic, Size::Large) => 170,
        (Kind::Cheese, Size::Small) => 130,
        (Kind::Cheese, Size::Medium) => 160,
        (Kind::Cheese, Size::Large) => 190,
        (Kind::Cesar, Size::Small) => 125,
        (Kind::Cesar, Size::Medium) => 155,
        (Kind::Cesar, Size::Large) => 185,
        (Kind::Meat, Size::Small) => 130,
        (Kind::Meat, Size::Medium) => 160,
        (Kind::Meat, Size::Large) => 190,
        (Kind::Beef, Size::Small) => 145,
        (Kind::Beef, Size::Medium) => 175,
        (Kind::Beef, Size::Large) => 215,
    }
}

/// Extra cheese costs 15, mushrooms 25 and jalapeños 20.
pub open spec fn extras_price(cheese: bool, mushrooms: bool, jalopenos: bool) -> int {
    (if cheese { 15int } else { 0int }) + (if mushrooms { 25int } else { 0int }) + (if jalopenos {
        20int
    } else {
        0int
    })
}

impl Kind {
    /// The menu name of the recipe.
    pub fn label(&self) -> (r: &'static str)
        ensures
            r@ == kind_label(*self),
    {
        match self {
            Kind::Classic => "Классическая",
            Kind::Cheese => "Сырная",
            Kind::Cesar => "Цезарь",
            Kind::Meat => "Мясная",
            Kind::Beef => "С говядиной",
        }
    }
}

impl Size {
    /// The menu name of the size.
    pub fn label(&self) -> (r: &'static str)
        ensures
            r@ == size_label(*self),
    {
        match self {
            Size::Small => "Мини",
            Size::Medium => "Средняя",
            Size::Large => "Большая",
        }
    }
}

/// One shawarma being ordered.
#[derive(Clone, Copy, Debug, PartialEq, Eq, Structural)]
pub struct Shaurma {
    pub kind: Kind,
    pub size: Size,
    pub cheese: bool,
    pub mushrooms: bool,
    pub jalopenos: bool,
}

impl Shaurma {
    pub open spec fn spec_price(self) -> int {
        base_price(self.kind, self.size) + extras_price(self.cheese, self.mushrooms, self.jalopenos)
    }

    /// A shawarma of the given recipe and size, with no extras.
    pub fn new(kind: Kind, size: Size) -> (r: Shaurma)
        ensures
            r == (Shaurma { kind, size, cheese: false, mushrooms: false, jalopenos: false }),
    {
        Shaurma { kind, size, cheese: false, mushrooms: false, jalopenos: false }
    }

    /// The price in roubles: the menu price plus each chosen extra.
    pub fn price(&self) -> (r: u32)
        ensures
            r == self.spec_price(),
    {
        let mut price: u32 = match (self.kind, self.size) {
            (Kind::Classic, Size::Small) => 100,
            (Kind::Classic, Size::Medium) => 140,
            (Kind::Classic, Size::Large) => 170,
            (Kind::Cheese, Size::Small) => 130,
            (Kind::Cheese, Size::Medium) => 160,
            (Kind::Cheese, Size::Large) => 190,
            (Kind::Cesar, Size::Small) => 125,
            (Kind::Cesar, Size::Medium) => 155,
            (Kind::Cesar, Size::Large) => 185,
            (Kind::Meat, Size::Small) => 130,
            (Kind::Meat, Size::Medium) => 160,
            (Kind::Meat, Size::Large) => 190,
            (Kind::Beef, Size::Small) => 145,
            (Kind::Beef, Size::Medium) => 175,
            (Kind::Beef, Size::Large) => 215,
        };
        if self.cheese {
            price += 15;
        }
        if self.mushrooms {
            price += 25;
        }
        if self.jalopenos {
            price += 20;
        }
        price
    }
}

/// What the user can do on the order form.
#[derive(Clone, Copy, Debug, PartialEq, Eq, Structural)]
pub enum Message {
    SelectKind(Kind),
    SelectSize(Size),
    AdditionalCheese(bool),
    AdditionalMushrooms(bool),
    AdditionalJalopenos(bool),
    Order,
}

/// The order form: the shawarma being put together, and whether it was ordered.
#[derive(Clone, Copy, Debug, PartialEq, Eq, Structural)]
pub struct App {
    pub shaurma: Shaurma,
    pub ordered: bool,
}

/// The form after a message: any change to the shawarma withdraws an earlier
/// order, and `Order` places one.
pub open spec fn apply(app: App, message: Message) -> App {
    let s = app.shaurma;
    match message {
        Message::SelectKind(kind) => App { shaurma: Shaurma { kind, ..s }, ordered: false },
        Message::SelectSize(size) => App { shaurma: Shaurma { size, ..s }, ordered: false },
        Message::AdditionalCheese(b) => App { shaurma: Shaurma { cheese: b, ..s }, ordered: false },
        Message::AdditionalMushrooms(b) => App {
            shaurma: Shaurma { mushrooms: b, ..s },
            ordered: false,
        },
        Message::AdditionalJalopenos(b) => App {
            shaurma: Shaurma { jalopenos: b, ..s },
            ordered: false,
        },
        Message::Order => App { shaurma: s, ordered: true },
    }
}

impl App {
    /// A fresh form: a small classic shawarma, not ordered yet.
    pub fn new() -> (r: App)
        ensures
            r.shaurma == (Shaurma { kind: Kind::Classic, size: Size::Small, cheese: false, mushrooms: false, jalopenos: false }),
            !r.ordered,
    {
        App { shaurma: Shaurma::new(Kind::Classic, Size::Small), ordered: false }
    }

    /// The window title.
    pub fn title(&self) -> (r: String)
        ensures
            r@ == "Шаурма"@,
    {
        String::from_str("Шаурма")
    }

    /// Reacts to one message.
    pub fn update(&mut self, message: Message)
        ensures
            *final(self) == apply(*old(self), message),
    {
        if message != Message::Order {
            self.ordered = false;
        }
        match message {
            Message::SelectKind(kind) => {
                self.shaurma.kind = kind;
            },
            Message::SelectSize(size) => {
                self.shaurma.size = size;
            },
            Message::AdditionalCheese(cheese) => {
                self.shaurma.cheese = cheese;
            },
            Message::AdditionalMushrooms(mushrooms) => {
                self.shaurma.mushrooms = mushrooms;
            },
            Message::AdditionalJalopenos(jalopenos) => {
                self.shaurma.jalopenos = jalopenos;
            },
            Message::Order => {
                self.ordered = true;
            },
        }
    }
}

} // verus!
