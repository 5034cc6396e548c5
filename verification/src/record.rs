//! The data model: one extracted offer, one source's ordered result set, and
//! the optional outcome of searching a result set for a name.

use vstd::prelude::*;
use vstd::string::StringExecFns;

verus! {

/// One external storefront queried for game listings.
#[derive(Clone, Copy, Debug, PartialEq, Eq, Structural)]
pub enum Source {
    Steam,
    Epic,
    Nuuvem,
}

/// The display name of a source, as it heads that source's slot in the
/// rendered comparison.
pub open spec fn source_title(s: Source) -> Seq<char> {
    match s {
        Source::Steam => "Steam"@,
        Source::Epic => "Epic Games"@,
        Source::Nuuvem => "Nuuvem"@,
    }
}

impl Source {
    /// The display name of this source.
    pub fn title(&self) -> (r: &'static str)
        ensures
            r@ == source_title(*self),
    {
        match self {
            Source::Steam => "Steam",
            Source::Epic => "Epic Games",
            Source::Nuuvem => "Nuuvem",
        }
    }
}

/// One candidate offer taken from one source's results page. Price and
/// discount fields are display strings kept exactly as the source formats
/// them, never parsed into numbers.
#[derive(Debug)]
pub struct Game {
    pub site: Source,
    pub name: String,
    pub currency: String,
    pub full_price: String,
    pub discounted_price: String,
    pub discount: String,
    pub img_url: String,
}

/// The mathematical shape of a [`Game`]: each display string as its
/// character sequence.
pub struct GameView {
    pub site: Source,
    pub name: Seq<char>,
    pub currency: Seq<char>,
    pub full_price: Seq<char>,
    pub discounted_price: Seq<char>,
    pub discount: Seq<char>,
    pub img_url: Seq<char>,
}

impl View for Game {
    type V = GameView;

    open spec fn view(&self) -> GameView {
        GameView {
            site: self.site,
            name: self.name@,
            currency: self.currency@,
            full_price: self.full_price@,
            discounted_price: self.discounted_price@,
            discount: self.discount@,
            img_url: self.img_url@,
        }
    }
}

/// An exact copy of an offer, field by field.
pub fn clone_game(g: &Game) -> (r: Game)
    ensures
        r@ == g@,
{
    Game {
        site: g.site,
        name: g.name.clone(),
        currency: g.currency.clone(),
        full_price: g.full_price.clone(),
        discounted_price: g.discounted_price.clone(),
        discount: g.discount.clone(),
        img_url: g.img_url.clone(),
    }
}

/// The mathematical shape of an optional offer.
pub open spec fn opt_game_view(o: Option<Game>) -> Option<GameView> {
    match o {
        Some(g) => Some(g@),
        None => None,
    }
}

/// The mathematical shape of a list of offers.
pub open spec fn games_view(s: Seq<Game>) -> Seq<GameView> {
    s.map_values(|g: Game| g@)
}

/// One source's result set for one query, in document order; empty when the
/// query matched nothing or the markup could not be read.
#[derive(Debug)]
pub struct GamesVec {
    pub games: Vec<Game>,
}

impl View for GamesVec {
    type V = Seq<GameView>;

    open spec fn view(&self) -> Seq<GameView> {
        Seq::new(self.games@.len(), |i: int| self.games@[i]@)
    }
}

/// The outcome of searching one source's result set for the canonical name:
/// the first matching offer, or "not found", which is a displayable state
/// rather than an error.
#[derive(Debug)]
pub struct GameOpt {
    pub game: Option<Game>,
}

impl View for GameOpt {
    type V = Option<GameView>;

    open spec fn view(&self) -> Option<GameView> {
        match self.game {
            Some(g) => Some(g@),
            None => None,
        }
    }
}

/// The two display lines for one source's slot: the price shown is the
/// discounted one when present, the full one otherwise; a Nuuvem price is
/// prefixed by its currency marker; an absent offer reads "Not found!".
pub open spec fn display_spec(o: Option<GameView>) -> Seq<char> {
    match o {
        None => "Not found!"@,
        Some(g) => {
            let price = if g.discounted_price.len() == 0 {
                g.full_price
            } else {
                g.discounted_price
            };
            let shown = if g.site == Source::Nuuvem {
                g.currency + price
            } else {
                price
            };
            "Price: "@ + shown + "\nDiscount: "@ + g.discount
        },
    }
}

impl GameOpt {
    /// The text rendered into this source's slot of the comparison.
    pub fn display_line(&self) -> (r: String)
        ensures
            r@ == display_spec(self@),
    {
        match &self.game {
            None => String::from_str("Not found!"),
            Some(g) => {
                let mut out = String::from_str("Price: ");
                if g.site == Source::Nuuvem {
                    out.append(g.currency.as_str());
                }
                if g.discounted_price.as_str().is_empty() {
                    out.append(g.full_price.as_str());
                } else {
                    out.append(g.discounted_price.as_str());
                }
                out.append("\nDiscount: ");
                out.append(g.discount.as_str());
                proof {
                    assert(out@ =~= display_spec(self@));
                }
                out
            },
        }
    }
}

} // verus!
