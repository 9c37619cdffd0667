//! The closed vocabularies of a card: its category, attribute and race.

use vstd::prelude::*;
use vstd::string::StrSliceExecFns;

verus! {

/// Whether two string slices hold the same characters.
pub fn str_eq(a: &str, b: &str) -> (same: bool)
    ensures
        same == (a@ == b@),
{
    let n: usize = a.unicode_len();
    if n != b.unicode_len() {
        return false;
    }
    let mut i: usize = 0;
    while i < n
        invariant
            i <= n,
            n == a@.len(),
            n == b@.len(),
            forall|k: int| 0 <= k < i ==> a@[k] == b@[k],
        decreases n - i,
    {
        if a.get_char(i) != b.get_char(i) {
            return false;
        }
        i += 1;
    }
    assert(a@ =~= b@);
    true
}

/// The category of a card.
#[derive(Debug, Clone, Copy, PartialEq, Eq, Structural)]
pub enum CardType {
    /// A character that takes a place on the field.
    Actor,
    /// An arcane trick.
    Arcane,
    /// A meme.
    Meme,
}

/// The category that a name denotes, if any.
pub open spec fn card_type_named(s: Seq<char>) -> Option<CardType> {
    if s == "Actor"@ {
        Some(CardType::Actor)
    } else if s == "Arcane"@ {
        Some(CardType::Arcane)
    } else if s == "Meme"@ {
        Some(CardType::Meme)
    } else {
        None
    }
}

impl CardType {
    /// Reads a category from its name; any other text is refused.
    pub fn from_str(s: &str) -> (r: Result<CardType, ()>)
        ensures
            r == match card_type_named(s@) {
                Some(t) => Ok::<CardType, ()>(t),
                None => Err::<CardType, ()>(()),
            },
    {
        if str_eq(s, "Actor") {
            Ok(CardType::Actor)
        } else if str_eq(s, "Arcane") {
            Ok(CardType::Arcane)
        } else if str_eq(s, "Meme") {
            Ok(CardType::Meme)
        } else {
            Err(())
        }
    }
}

impl core::str::FromStr for CardType {
    type Err = ();

    fn from_str(s: &str) -> (r: Result<Self, Self::Err>)
        ensures
            r == match card_type_named(s@) {
                Some(t) => Ok::<CardType, ()>(t),
                None => Err::<CardType, ()>(()),
            },
    {
        CardType::from_str(s)
    }
}

/// The attribute of a card.
#[derive(Debug, Clone, Copy, PartialEq, Eq, Structural)]
pub enum Attr {
    /// Star.
    STAR,
    /// Beast.
    BEAST,
    /// Plant.
    PLANT,
    /// Mineral.
    MINERAL,
    /// Spirit.
    SPIRIT,
    /// Intellect.
    INTELLECT,
}

/// The attribute that a name denotes, if any.
pub open spec fn attr_named(s: Seq<char>) -> Option<Attr> {
    if s == "STAR"@ {
        Some(Attr::STAR)
    } else if s == "BEAST"@ {
        Some(Attr::BEAST)
    } else if s == "PLANT"@ {
        Some(Attr::PLANT)
    } else if s == "MINERAL"@ {
        Some(Attr::MINERAL)
    } else if s == "SPIRIT"@ {
        Some(Attr::SPIRIT)
    } else if s == "INTELLECT"@ {
        Some(Attr::INTELLECT)
    } else {
        None
    }
}

impl Attr {
    /// Reads an attribute from its name; any other text is refused.
    pub fn from_str(s: &str) -> (r: Result<Attr, ()>)
        ensures
            r == match attr_named(s@) {
                Some(a) => Ok::<Attr, ()>(a),
                None => Err::<Attr, ()>(()),
            },
    {
        if str_eq(s, "STAR") {
            Ok(Attr::STAR)
        } else if str_eq(s, "BEAST") {
            Ok(Attr::BEAST)
        } else if str_eq(s, "PLANT") {
            Ok(Attr::PLANT)
        } else if str_eq(s, "MINERAL") {
            Ok(Attr::MINERAL)
        } else if str_eq(s, "SPIRIT") {
            Ok(Attr::SPIRIT)
        } else if str_eq(s, "INTELLECT") {
            Ok(Attr::INTELLECT)
        } else {
            Err(())
        }
    }
}

impl core::str::FromStr for Attr {
    type Err = ();

    fn from_str(s: &str) -> (r: Result<Self, Self::Err>)
        ensures
            r == match attr_named(s@) {
                Some(a) => Ok::<Attr, ()>(a),
                None => Err::<Attr, ()>(()),
            },
    {
        Attr::from_str(s)
    }
}

/// The race of a card.
#[derive(Debug, Clone, Copy, PartialEq, Eq, Structural)]
pub enum Race {
    /// No race.
    NULL,
    /// Arcanist.
    Arcanist,
    /// Beyond.
    Beyond,
    /// Awakened.
    Awakened,
    /// Mixed blood.
    Mixed,
    /// Human.
    Human,
}

/// The race that a name denotes, if any.
pub open spec fn race_named(s: Seq<char>) -> Option<Race> {
    if s == "NULL"@ {
        Some(Race::NULL)
    } else if s == "Arcanist"@ {
        Some(Race::Arcanist)
    } else if s == "Beyond"@ {
        Some(Race::Beyond)
    } else if s == "Awakened"@ {
        Some(Race::Awakened)
    } else if s == "Mixed"@ {
        Some(Race::Mixed)
    } else if s == "Human"@ {
        Some(Race::Human)
    } else {
        None
    }
}

impl Race {
    /// Reads a race from its name; any other text is refused.
    pub fn from_str(s: &str) -> (r: Result<Race, ()>)
        ensures
            r == match race_named(s@) {
                Some(x) => Ok::<Race, ()>(x),
                None => Err::<Race, ()>(()),
            },
    {
        if str_eq(s, "NULL") {
            Ok(Race::NULL)
        } else if str_eq(s, "Arcanist") {
            Ok(Race::Arcanist)
        } else if str_eq(s, "Beyond") {
            Ok(Race::Beyond)
        } else if str_eq(s, "Awakened") {
            Ok(Race::Awakened)
        } else if str_eq(s, "Mixed") {
            Ok(Race::Mixed)
        } else if str_eq(s, "Human") {
            Ok(Race::Human)
        } else {
            Err(())
        }
    }
}

impl core::str::FromStr for Race {
    type Err = ();

    fn from_str(s: &str) -> (r: Result<Self, Self::Err>)
        ensures
            r == match race_named(s@) {
                Some(x) => Ok::<Race, ()>(x),
                None => Err::<Race, ()>(()),
            },
    {
        Race::from_str(s)
    }
}

} // verus!
