use vstd::prelude::*;

verus! {

/// The four categories a card can belong to.
#[derive(Clone, Copy, Debug, PartialEq, Eq, Structural)]
pub enum CardType {
    Treasure,
    Action,
    Victory,
    Curse,
}

#[derive(Clone, Copy, Debug, PartialEq, Eq, Structural)]
pub enum Treasure {
    Copper,
    Silver,
    Gold,
}

#[derive(Clone, Copy, Debug, PartialEq, Eq, Structural)]
pub enum Victory {
    Estate,
    Duchy,
    Province,
}

#[derive(Clone, Copy, Debug, PartialEq, Eq, Structural)]
pub enum Curse {
    Curse,
}

#[derive(Clone, Copy, Debug, PartialEq, Eq, Structural)]
pub enum Action {
    // Cost 2
    Cellar,
    Chapel,
    Moat,
    // Cost 3
    Harbinger,
    Merchant,
    Vassal,
    Village,
    Workshop,
    // Cost 4
    Bureaucrat,
    Gardens,
    Militia,
    Moneylender,
    Poacher,
    Remodel,
    Smithy,
    ThroneRoom,
    // Cost 5
    Bandit,
    CouncilRoom,
    Festival,
    Laboratory,
    Library,
    Market,
    Mine,
    Sentry,
    Witch,
    // Cost 6
    Artisan,
}

/// A card, tagged by its category; cards have no identity beyond their variant.
#[derive(Clone, Copy, Debug, PartialEq, Eq, Structural)]
pub enum Card {
    Treasure(Treasure),
    Action(Action),
    Victory(Victory),
    Curse(Curse),
}

impl Treasure {
    pub open spec fn spec_value(&self) -> u32 {
        match self {
            Treasure::Copper => 1,
            Treasure::Silver => 2,
            Treasure::Gold => 3,
        }
    }

    pub open spec fn spec_cost(&self) -> u32 {
        match self {
            Treasure::Copper => 0,
            Treasure::Silver => 3,
            Treasure::Gold => 6,
        }
    }

    pub open spec fn spec_name(&self) -> Seq<char> {
        match self {
            Treasure::Copper => "Copper"@,
            Treasure::Silver => "Silver"@,
            Treasure::Gold => "Gold"@,
        }
    }

    /// The number of coins the treasure is worth when played.
    #[verifier::when_used_as_spec(spec_value)]
    pub fn value(&self) -> (r: u32)
        ensures
            r == self.spec_value(),
    {
        match self {
            Treasure::Copper => 1,
            Treasure::Silver => 2,
            Treasure::Gold => 3,
        }
    }

    #[verifier::when_used_as_spec(spec_cost)]
    pub fn cost(&self) -> (r: u32)
        ensures
            r == self.spec_cost(),
    {
        match self {
            Treasure::Copper => 0,
            Treasure::Silver => 3,
            Treasure::Gold => 6,
        }
    }

    pub fn name(&self) -> (r: &'static str)
        ensures
            r@ == self.spec_name(),
    {
        match self {
            Treasure::Copper => "Copper",
            Treasure::Silver => "Silver",
            Treasure::Gold => "Gold",
        }
    }

    pub fn card_type(&self) -> (r: CardType)
        ensures
            r == CardType::Treasure,
    {
        CardType::Treasure
    }
}

impl Victory {
    pub open spec fn spec_cost(&self) -> u32 {
        match self {
            Victory::Estate => 2,
            Victory::Duchy => 5,
            Victory::Province => 8,
        }
    }

    pub open spec fn spec_name(&self) -> Seq<char> {
        match self {
            Victory::Estate => "Estate"@,
            Victory::Duchy => "Duchy"@,
            Victory::Province => "Province"@,
        }
    }

    #[verifier::when_used_as_spec(spec_cost)]
    pub fn cost(&self) -> (r: u32)
        ensures
            r == self.spec_cost(),
    {
        match self {
            Victory::Estate => 2,
            Victory::Duchy => 5,
            Victory::Province => 8,
        }
    }

    pub fn name(&self) -> (r: &'static str)
        ensures
            r@ == self.spec_name(),
    {
        match self {
            Victory::Estate => "Estate",
            Victory::Duchy => "Duchy",
            Victory::Province => "Province",
        }
    }

    pub fn card_type(&self) -> (r: CardType)
        ensures
            r == CardType::Victory,
    {
        CardType::Victory
    }
}

impl Curse {
    pub open spec fn spec_cost(&self) -> u32 {
        match self {
            Curse::Curse => 0,
        }
    }

    pub open spec fn spec_name(&self) -> Seq<char> {
        match self {
            Curse::Curse => "Curse"@,
        }
    }

    #[verifier::when_used_as_spec(spec_cost)]
    pub fn cost(&self) -> (r: u32)
        ensures
            r == self.spec_cost(),
    {
        match self {
            Curse::Curse => 0,
        }
    }

    pub fn name(&self) -> (r: &'static str)
        ensures
            r@ == self.spec_name(),
    {
        match self {
            Curse::Curse => "Curse",
        }
    }

    pub fn card_type(&self) -> (r: CardType)
        ensures
            r == CardType::Curse,
    {
        CardType::Curse
    }
}

impl Action {
    pub open spec fn spec_cost(&self) -> u32 {
        match self {
            Action::Cellar => 2,
            Action::Chapel => 2,
            Action::Moat => 2,
            Action::Harbinger => 3,
            Action::Merchant => 3,
            Action::Vassal => 3,
            Action::Village => 3,
            Action::Workshop => 3,
            Action::Bureaucrat => 4,
            Action::Gardens => 4,
            Action::Militia => 4,
            Action::Moneylender => 4,
            Action::Poacher => 4,
            Action::Remodel => 4,
            Action::Smithy => 4,
            Action::ThroneRoom => 4,
            Action::Bandit => 5,
            Action::CouncilRoom => 5,
            Action::Festival => 5,
            Action::Laboratory => 5,
            Action::Library => 5,
            Action::Market => 5,
            Action::Mine => 5,
            Action::Sentry => 5,
            Action::Witch => 5,
            Action::Artisan => 6,
        }
    }

    pub open spec fn spec_name(&self) -> Seq<char> {
        match self {
            Action::Cellar => "Cellar"@,
            Action::Chapel => "Chapel"@,
            Action::Moat => "Moat"@,
            Action::Harbinger => "Harbinger"@,
            Action::Merchant => "Merchant"@,
            Action::Vassal => "Vassal"@,
            Action::Village => "Village"@,
            Action::Workshop => "Workshop"@,
            Action::Bureaucrat => "Bureaucrat"@,
            Action::Gardens => "Gardens"@,
            Action::Militia => "Militia"@,
            Action::Moneylender => "Moneylender"@,
            Action::Poacher => "Poacher"@,
            Action::Remodel => "Remodel"@,
            Action::Smithy => "Smithy"@,
            Action::ThroneRoom => "Throne Room"@,
            Action::Bandit => "Bandit"@,
            Action::CouncilRoom => "Council Room"@,
            Action::Festival => "Festival"@,
            Action::Laboratory => "Laboratory"@,
            Action::Library => "Library"@,
            Action::Market => "Market"@,
            Action::Mine => "Mine"@,
            Action::Sentry => "Sentry"@,
            Action::Witch => "Witch"@,
            Action::Artisan => "Artisan"@,
        }
    }

    #[verifier::when_used_as_spec(spec_cost)]
    pub fn cost(&self) -> (r: u32)
        ensures
            r == self.spec_cost(),
    {
        match self {
            Action::Cellar => 2,
            Action::Chapel => 2,
            Action::Moat => 2,
            Action::Harbinger => 3,
            Action::Merchant => 3,
            Action::Vassal => 3,
            Action::Village => 3,
            Action::Workshop => 3,
            Action::Bureaucrat => 4,
            Action::Gardens => 4,
            Action::Militia => 4,
            Action::Moneylender => 4,
            Action::Poacher => 4,
            Action::Remodel => 4,
            Action::Smithy => 4,
            Action::ThroneRoom => 4,
            Action::Bandit => 5,
            Action::CouncilRoom => 5,
            Action::Festival => 5,
            Action::Laboratory => 5,
            Action::Library => 5,
            Action::Market => 5,
            Action::Mine => 5,
            Action::Sentry => 5,
            Action::Witch => 5,
            Action::Artisan => 6,
        }
    }

    pub fn name(&self) -> (r: &'static str)
        ensures
            r@ == self.spec_name(),
    {
        match self {
            Action::Cellar => "Cellar",
            Action::Chapel => "Chapel",
            Action::Moat => "Moat",
            Action::Harbinger => "Harbinger",
            Action::Merchant => "Merchant",
            Action::Vassal => "Vassal",
            Action::Village => "Village",
            Action::Workshop => "Workshop",
            Action::Bureaucrat => "Bureaucrat",
            Action::Gardens => "Gardens",
            Action::Militia => "Militia",
            Action::Moneylender => "Moneylender",
            Action::Poacher => "Poacher",
            Action::Remodel => "Remodel",
            Action::Smithy => "Smithy",
            Action::ThroneRoom => "Throne Room",
            Action::Bandit => "Bandit",
            Action::CouncilRoom => "Council Room",
            Action::Festival => "Festival",
            Action::Laboratory => "Laboratory",
            Action::Library => "Library",
            Action::Market => "Market",
            Action::Mine => "Mine",
            Action::Sentry => "Sentry",
            Action::Witch => "Witch",
            Action::Artisan => "Artisan",
        }
    }

    pub fn card_type(&self) -> (r: CardType)
        ensures
            r == CardType::Action,
    {
        CardType::Action
    }
}

impl Card {
    pub open spec fn spec_card_type(&self) -> CardType {
        match self {
            Card::Treasure(_) => CardType::Treasure,
            Card::Action(_) => CardType::Action,
            Card::Victory(_) => CardType::Victory,
            Card::Curse(_) => CardType::Curse,
        }
    }

    pub open spec fn spec_cost(&self) -> u32 {
        match self {
            Card::Treasure(t) => t.spec_cost(),
            Card::Action(a) => a.spec_cost(),
            Card::Victory(v) => v.spec_cost(),
            Card::Curse(c) => c.spec_cost(),
        }
    }

    pub open spec fn spec_name(&self) -> Seq<char> {
        match self {
            Card::Treasure(t) => t.spec_name(),
            Card::Action(a) => a.spec_name(),
            Card::Victory(v) => v.spec_name(),
            Card::Curse(c) => c.spec_name(),
        }
    }

    /// Victory points the card is worth at the end of the game; curses count nothing.
    pub open spec fn spec_points(&self) -> u32 {
        match self {
            Card::Victory(Victory::Estate) => 1,
            Card::Victory(Victory::Duchy) => 3,
            Card::Victory(Victory::Province) => 6,
            _ => 0,
        }
    }

    #[verifier::when_used_as_spec(spec_card_type)]
    pub fn card_type(&self) -> (r: CardType)
        ensures
            r == self.spec_card_type(),
    {
        match self {
            Card::Treasure(t) => t.card_type(),
            Card::Action(a) => a.card_type(),
            Card::Victory(v) => v.card_type(),
            Card::Curse(c) => c.card_type(),
        }
    }

    #[verifier::when_used_as_spec(spec_cost)]
    pub fn cost(&self) -> (r: u32)
        ensures
            r == self.spec_cost(),
    {
        match self {
            Card::Treasure(t) => t.cost(),
            Card::Action(a) => a.cost(),
            Card::Victory(v) => v.cost(),
            Card::Curse(c) => c.cost(),
        }
    }

    pub fn name(&self) -> (r: &'static str)
        ensures
            r@ == self.spec_name(),
    {
        match self {
            Card::Treasure(t) => t.name(),
            Card::Action(a) => a.name(),
            Card::Victory(v) => v.name(),
            Card::Curse(c) => c.name(),
        }
    }

    #[verifier::when_used_as_spec(spec_points)]
    pub fn points(&self) -> (r: u32)
        ensures
            r == self.spec_points(),
    {
        match self {
            Card::Victory(Victory::Estate) => 1,
            Card::Victory(Victory::Duchy) => 3,
            Card::Victory(Victory::Province) => 6,
            _ => 0,
        }
    }
}

/// Whether two strings hold the same characters.
fn names_equal(a: &str, b: &str) -> (r: bool)
    ensures
        r == (a@ == b@),
{
    a.to_owned() == b.to_owned()
}

/// Looks a card up by its printed name; `None` when no card bears that name.
pub fn card_name_to_card(card_name: &str) -> (r: Option<Card>)
    ensures
        match r {
            Some(c) => c.spec_name() == card_name@,
            None => forall|c: Card| #[trigger] c.spec_name() != card_name@,
        },
{
    let card = Card::Treasure(Treasure::Copper);
    if names_equal(card_name, card.name()) {
        return Some(card);
    }
    let card = Card::Treasure(Treasure::Silver);
    if names_equal(card_name, card.name()) {
        return Some(card);
    }
    let card = Card::Treasure(Treasure::Gold);
    if names_equal(card_name, card.name()) {
        return Some(card);
    }
    let card = Card::Victory(Victory::Estate);
    if names_equal(card_name, card.name()) {
        return Some(card);
    }
    let card = Card::Victory(Victory::Duchy);
    if names_equal(card_name, card.name()) {
        return Some(card);
    }
    let card = Card::Victory(Victory::Province);
    if names_equal(card_name, card.name()) {
        return Some(card);
    }
    let card = Card::Curse(Curse::Curse);
    if names_equal(card_name, card.name()) {
        return Some(card);
    }
    let card = Card::Action(Action::Cellar);
    if names_equal(card_name, card.name()) {
        return Some(card);
    }
    let card = Card::Action(Action::Chapel);
    if names_equal(card_name, card.name()) {
        return Some(card);
    }
    let card = Card::Action(Action::Moat);
    if names_equal(card_name, card.name()) {
        return Some(card);
    }
    let card = Card::Action(Action::Harbinger);
    if names_equal(card_name, card.name()) {
        return Some(card);
    }
    let card = Card::Action(Action::Merchant);
    if names_equal(card_name, card.name()) {
        return Some(card);
    }
    let card = Card::Action(Action::Vassal);
    if names_equal(card_name, card.name()) {
        return Some(card);
    }
    let card = Card::Action(Action::Village);
    if names_equal(card_name, card.name()) {
        return Some(card);
    }
    let card = Card::Action(Action::Workshop);
    if names_equal(card_name, card.name()) {
        return Some(card);
    }
    let card = Card::Action(Action::Bureaucrat);
    if names_equal(card_name, card.name()) {
        return Some(card);
    }
    let card = Card::Action(Action::Gardens);
    if names_equal(card_name, card.name()) {
        return Some(card);
    }
    let card = Card::Action(Action::Militia);
    if names_equal(card_name, card.name()) {
        return Some(card);
    }
    let card = Card::Action(Action::Moneylender);
    if names_equal(card_name, card.name()) {
        return Some(card);
    }
    let card = Card::Action(Action::Poacher);
    if names_equal(card_name, card.name()) {
        return Some(card);
    }
    let card = Card::Action(Action::Remodel);
    if names_equal(card_name, card.name()) {
        return Some(card);
    }
    let card = Card::Action(Action::Smithy);
    if names_equal(card_name, card.name()) {
        return Some(card);
    }
    let card = Card::Action(Action::ThroneRoom);
    if names_equal(card_name, card.name()) {
        return Some(card);
    }
    let card = Card::Action(Action::Bandit);
    if names_equal(card_name, card.name()) {
        return Some(card);
    }
    let card = Card::Action(Action::CouncilRoom);
    if names_equal(card_name, card.name()) {
        return Some(card);
    }
    let card = Card::Action(Action::Festival);
    if names_equal(card_name, card.name()) {
        return Some(card);
    }
    let card = Card::Action(Action::Laboratory);
    if names_equal(card_name, card.name()) {
        return Some(card);
    }
    let card = Card::Action(Action::Library);
    if names_equal(card_name, card.name()) {
        return Some(card);
    }
    let card = Card::Action(Action::Market);
    if names_equal(card_name, card.name()) {
        return Some(card);
    }
    let card = Card::Action(Action::Mine);
    if names_equal(card_name, card.name()) {
        return Some(card);
    }
    let card = Card::Action(Action::Sentry);
    if names_equal(card_name, card.name()) {
        return Some(card);
    }
    let card = Card::Action(Action::Witch);
    if names_equal(card_name, card.name()) {
        return Some(card);
    }
    let card = Card::Action(Action::Artisan);
    if names_equal(card_name, card.name()) {
        return Some(card);
    }
    None
}

/// The length and first two characters of a card's name, which tell the
/// names apart.
spec fn name_key(c: Card) -> (nat, char, char) {
    match c {
        Card::Treasure(Treasure::Copper) => (6nat, 'C', 'o'),
        Card::Treasure(Treasure::Silver) => (6nat, 'S', 'i'),
        Card::Treasure(Treasure::Gold) => (4nat, 'G', 'o'),
        Card::Victory(Victory::Estate) => (6nat, 'E', 's'),
        Card::Victory(Victory::Duchy) => (5nat, 'D', 'u'),
        Card::Victory(Victory::Province) => (8nat, 'P', 'r'),
        Card::Curse(Curse::Curse) => (5nat, 'C', 'u'),
        Card::Action(Action::Cellar) => (6nat, 'C', 'e'),
        Card::Action(Action::Chapel) => (6nat, 'C', 'h'),
        Card::Action(Action::Moat) => (4nat, 'M', 'o'),
        Card::Action(Action::Harbinger) => (9nat, 'H', 'a'),
        Card::Action(Action::Merchant) => (8nat, 'M', 'e'),
        Card::Action(Action::Vassal) => (6nat, 'V', 'a'),
        Card::Action(Action::Village) => (7nat, 'V', 'i'),
        Card::Action(Action::Workshop) => (8nat, 'W', 'o'),
        Card::Action(Action::Bureaucrat) => (10nat, 'B', 'u'),
        Card::Action(Action::Gardens) => (7nat, 'G', 'a'),
        Card::Action(Action::Militia) => (7nat, 'M', 'i'),
        Card::Action(Action::Moneylender) => (11nat, 'M', 'o'),
        Card::Action(Action::Poacher) => (7nat, 'P', 'o'),
        Card::Action(Action::Remodel) => (7nat, 'R', 'e'),
        Card::Action(Action::Smithy) => (6nat, 'S', 'm'),
        Card::Action(Action::ThroneRoom) => (11nat, 'T', 'h'),
        Card::Action(Action::Bandit) => (6nat, 'B', 'a'),
        Card::Action(Action::CouncilRoom) => (12nat, 'C', 'o'),
        Card::Action(Action::Festival) => (8nat, 'F', 'e'),
        Card::Action(Action::Laboratory) => (10nat, 'L', 'a'),
        Card::Action(Action::Library) => (7nat, 'L', 'i'),
        Card::Action(Action::Market) => (6nat, 'M', 'a'),
        Card::Action(Action::Mine) => (4nat, 'M', 'i'),
        Card::Action(Action::Sentry) => (6nat, 'S', 'e'),
        Card::Action(Action::Witch) => (5nat, 'W', 'i'),
        Card::Action(Action::Artisan) => (7nat, 'A', 'r'),
    }
}

proof fn lemma_name_key(c: Card)
    ensures
        name_key(c) == (c.spec_name().len(), c.spec_name()[0], c.spec_name()[1]),
{
    reveal_strlit("Copper");
    reveal_strlit("Silver");
    reveal_strlit("Gold");
    reveal_strlit("Estate");
    reveal_strlit("Duchy");
    reveal_strlit("Province");
    reveal_strlit("Curse");
    reveal_strlit("Cellar");
    reveal_strlit("Chapel");
    reveal_strlit("Moat");
    reveal_strlit("Harbinger");
    reveal_strlit("Merchant");
    reveal_strlit("Vassal");
    reveal_strlit("Village");
    reveal_strlit("Workshop");
    reveal_strlit("Bureaucrat");
    reveal_strlit("Gardens");
    reveal_strlit("Militia");
    reveal_strlit("Moneylender");
    reveal_strlit("Poacher");
    reveal_strlit("Remodel");
    reveal_strlit("Smithy");
    reveal_strlit("Throne Room");
    reveal_strlit("Bandit");
    reveal_strlit("Council Room");
    reveal_strlit("Festival");
    reveal_strlit("Laboratory");
    reveal_strlit("Library");
    reveal_strlit("Market");
    reveal_strlit("Mine");
    reveal_strlit("Sentry");
    reveal_strlit("Witch");
    reveal_strlit("Artisan");
}

/// No two cards share a name, so a name names one card.
pub proof fn lemma_names_distinct(a: Card, b: Card)
    requires
        a.spec_name() == b.spec_name(),
    ensures
        a == b,
{
    lemma_name_key(a);
    lemma_name_key(b);
}

} // verus!
