//! The character record, its edit and view message protocols, and the rule
//! tables that derive combat statistics from strength.

use crate::common::CharError;
use crate::text::{
    append_i32, append_opt_i32, int_chars, int_literal_val, json_str_of, json_string_literal,
    opt_int_chars, parse_i32, parses_to_i32, str_eq,
};
use vstd::prelude::*;
use vstd::string::StrSliceExecFns;
use vstd::string::StringExecFns;

verus! {

/// One edit message per form field, carrying the raw text the user typed.
#[derive(Debug, Clone, PartialEq)]
pub enum In {
    CharName(String),
    CharClass(String),
    Str(String),
    StrPercentile(String),
    Dex(String),
    Con(String),
    Int(String),
    Wis(String),
    Cha(String),
}

/// A view-update message published after an edit.
#[derive(Debug, Clone, PartialEq)]
pub enum Out {
    StrPercentile(StrengthPercentile),
    CharClass(CharacterClass),
    Dex(Option<i32>),
    Con(Option<i32>),
    Int(Option<i32>),
    Wis(Option<i32>),
    Cha(Option<i32>),
    JsonRender(Option<String>),
}

/// The committed strength and percentile pair after an edit, together with
/// the error that the edit produced, if any. Derived statistics are computed
/// from this pair on demand and never stored.
#[derive(Debug, Clone, PartialEq)]
pub struct StrengthPercentile {
    pub strength: i32,
    pub per: Option<i32>,
    pub err: Option<CharError>,
}

/// The hit-adjustment rule table. Strength is partitioned into fixed bands;
/// only the band at 18 consults the percentile, and only three percentile
/// sub-bands are distinguished.
pub open spec fn spec_hit_adj(strength: i32, per: Option<i32>) -> Result<i32, CharError> {
    if strength == 1 {
        Ok(-5i32)
    } else if 2 <= strength <= 3 {
        Ok(-3i32)
    } else if 4 <= strength <= 5 {
        Ok(-2i32)
    } else if 6 <= strength <= 7 {
        Ok(-1i32)
    } else if 8 <= strength <= 16 {
        Ok(0)
    } else if strength == 17 {
        Ok(1)
    } else if strength == 18 {
        match per {
            None => Ok(1),
            Some(p) => if 1 <= p <= 50 {
                Ok(1)
            } else if 51 <= p <= 99 {
                Ok(2)
            } else if p == 100 {
                Ok(3)
            } else {
                Err(CharError::InvalidPercentile(Some(p)))
            },
        }
    } else if 19 <= strength <= 20 {
        Ok(3)
    } else if 21 <= strength <= 22 {
        Ok(4)
    } else if strength == 23 {
        Ok(5)
    } else if strength == 24 {
        Ok(6)
    } else if strength == 25 {
        Ok(7)
    } else {
        Err(CharError::InvalidStrength(strength))
    }
}

/// The damage-adjustment rule table.
pub open spec fn spec_damage_adj(strength: i32, per: Option<i32>) -> Result<i32, CharError> {
    if strength == 1 {
        Ok(-4i32)
    } else if strength == 2 {
        Ok(-2i32)
    } else if 3 <= strength <= 5 {
        Ok(-1i32)
    } else if 6 <= strength <= 15 {
        Ok(0)
    } else if 16 <= strength <= 17 {
        Ok(1)
    } else if strength == 18 {
        match per {
            None => Ok(2),
            Some(p) => if 1 <= p <= 75 {
                Ok(3)
            } else if 76 <= p <= 90 {
                Ok(4)
            } else if 91 <= p <= 99 {
                Ok(5)
            } else if p == 100 {
                Ok(6)
            } else {
                Err(CharError::InvalidPercentile(Some(p)))
            },
        }
    } else if strength == 19 {
        Ok(7)
    } else if strength == 20 {
        Ok(8)
    } else if strength == 21 {
        Ok(9)
    } else if strength == 22 {
        Ok(10)
    } else if strength == 23 {
        Ok(11)
    } else if strength == 24 {
        Ok(12)
    } else if strength == 25 {
        Ok(14)
    } else {
        Err(CharError::InvalidStrength(strength))
    }
}

/// The carry-weight-allowance rule table.
pub open spec fn spec_weight_allow(strength: i32, per: Option<i32>) -> Result<i32, CharError> {
    if 1 <= strength <= 2 {
        Ok(1)
    } else if strength == 3 {
        Ok(5)
    } else if 4 <= strength <= 5 {
        Ok(10)
    } else if 6 <= strength <= 7 {
        Ok(20)
    } else if 8 <= strength <= 9 {
        Ok(35)
    } else if 10 <= strength <= 11 {
        Ok(40)
    } else if 12 <= strength <= 13 {
        Ok(45)
    } else if 14 <= strength <= 15 {
        Ok(55)
    } else if strength == 16 {
        Ok(70)
    } else if strength == 17 {
        Ok(85)
    } else if strength == 18 {
        match per {
            None => Ok(110),
            Some(p) => if 1 <= p <= 50 {
                Ok(135)
            } else if 51 <= p <= 75 {
                Ok(160)
            } else if 76 <= p <= 90 {
                Ok(185)
            } else if 91 <= p <= 99 {
                Ok(235)
            } else if p == 100 {
                Ok(335)
            } else {
                Err(CharError::InvalidPercentile(Some(p)))
            },
        }
    } else if strength == 19 {
        Ok(485)
    } else if strength == 20 {
        Ok(535)
    } else if strength == 21 {
        Ok(635)
    } else if strength == 22 {
        Ok(785)
    } else if strength == 23 {
        Ok(935)
    } else if strength == 24 {
        Ok(1235)
    } else if strength == 25 {
        Ok(1535)
    } else {
        Err(CharError::InvalidStrength(strength))
    }
}

/// The maximum-press rule table; the same rule set also answers open-doors
/// checks.
pub open spec fn spec_max_press(strength: i32, per: Option<i32>) -> Result<i32, CharError> {
    if strength == 1 {
        Ok(3)
    } else if strength == 2 {
        Ok(5)
    } else if strength == 3 {
        Ok(10)
    } else if 4 <= strength <= 5 {
        Ok(25)
    } else if 6 <= strength <= 7 {
        Ok(55)
    } else if 8 <= strength <= 9 {
        Ok(90)
    } else if 10 <= strength <= 11 {
        Ok(115)
    } else if 12 <= strength <= 13 {
        Ok(140)
    } else if 14 <= strength <= 15 {
        Ok(170)
    } else if strength == 16 {
        Ok(195)
    } else if strength == 17 {
        Ok(220)
    } else if strength == 18 {
        match per {
            None => Ok(255),
            Some(p) => if 1 <= p <= 50 {
                Ok(280)
            } else if 51 <= p <= 75 {
                Ok(305)
            } else if 76 <= p <= 90 {
                Ok(330)
            } else if 91 <= p <= 99 {
                Ok(380)
            } else if p == 100 {
                Ok(480)
            } else {
                Err(CharError::InvalidPercentile(Some(p)))
            },
        }
    } else if strength == 19 {
        Ok(640)
    } else if strength == 20 {
        Ok(700)
    } else if strength == 21 {
        Ok(810)
    } else if strength == 22 {
        Ok(970)
    } else if strength == 23 {
        Ok(1130)
    } else if strength == 24 {
        Ok(1440)
    } else if strength == 25 {
        Ok(1750)
    } else {
        Err(CharError::InvalidStrength(strength))
    }
}

impl StrengthPercentile {
    /// The hit adjustment derived from the committed strength and percentile.
    pub fn hit_adj(&self) -> (r: Result<i32, CharError>)
        ensures
            r == spec_hit_adj(self.strength, self.per),
    {
        let s = self.strength;
        if s == 1 {
            Ok(-5)
        } else if 2 <= s && s <= 3 {
            Ok(-3)
        } else if 4 <= s && s <= 5 {
            Ok(-2)
        } else if 6 <= s && s <= 7 {
            Ok(-1)
        } else if 8 <= s && s <= 16 {
            Ok(0)
        } else if s == 17 {
            Ok(1)
        } else if s == 18 {
            match self.per {
                None => Ok(1),
                Some(p) => if 1 <= p && p <= 50 {
                    Ok(1)
                } else if 51 <= p && p <= 99 {
                    Ok(2)
                } else if p == 100 {
                    Ok(3)
                } else {
                    Err(CharError::InvalidPercentile(Some(p)))
                },
            }
        } else if 19 <= s && s <= 20 {
            Ok(3)
        } else if 21 <= s && s <= 22 {
            Ok(4)
        } else if s == 23 {
            Ok(5)
        } else if s == 24 {
            Ok(6)
        } else if s == 25 {
            Ok(7)
        } else {
            Err(CharError::InvalidStrength(s))
        }
    }

    /// The damage adjustment derived from the committed strength and
    /// percentile.
    pub fn damage_adj(&self) -> (r: Result<i32, CharError>)
        ensures
            r == spec_damage_adj(self.strength, self.per),
    {
        let s = self.strength;
        if s == 1 {
            Ok(-4)
        } else if s == 2 {
            Ok(-2)
        } else if 3 <= s && s <= 5 {
            Ok(-1)
        } else if 6 <= s && s <= 15 {
            Ok(0)
        } else if 16 <= s && s <= 17 {
            Ok(1)
        } else if s == 18 {
            match self.per {
                None => Ok(2),
                Some(p) => if 1 <= p && p <= 75 {
                    Ok(3)
                } else if 76 <= p && p <= 90 {
                    Ok(4)
                } else if 91 <= p && p <= 99 {
                    Ok(5)
                } else if p == 100 {
                    Ok(6)
                } else {
                    Err(CharError::InvalidPercentile(Some(p)))
                },
            }
        } else if s == 19 {
            Ok(7)
        } else if s == 20 {
            Ok(8)
        } else if s == 21 {
            Ok(9)
        } else if s == 22 {
            Ok(10)
        } else if s == 23 {
            Ok(11)
        } else if s == 24 {
            Ok(12)
        } else if s == 25 {
            Ok(14)
        } else {
            Err(CharError::InvalidStrength(s))
        }
    }

    /// The carry-weight allowance derived from the committed strength and
    /// percentile.
    pub fn weight_allow(&self) -> (r: Result<i32, CharError>)
        ensures
            r == spec_weight_allow(self.strength, self.per),
    {
        let s = self.strength;
        if 1 <= s && s <= 2 {
            Ok(1)
        } else if s == 3 {
            Ok(5)
        } else if 4 <= s && s <= 5 {
            Ok(10)
        } else if 6 <= s && s <= 7 {
            Ok(20)
        } else if 8 <= s && s <= 9 {
            Ok(35)
        } else if 10 <= s && s <= 11 {
            Ok(40)
        } else if 12 <= s && s <= 13 {
            Ok(45)
        } else if 14 <= s && s <= 15 {
            Ok(55)
        } else if s == 16 {
            Ok(70)
        } else if s == 17 {
            Ok(85)
        } else if s == 18 {
            match self.per {
                None => Ok(110),
                Some(p) => if 1 <= p && p <= 50 {
                    Ok(135)
                } else if 51 <= p && p <= 75 {
                    Ok(160)
                } else if 76 <= p && p <= 90 {
                    Ok(185)
                } else if 91 <= p && p <= 99 {
                    Ok(235)
                } else if p == 100 {
                    Ok(335)
                } else {
                    Err(CharError::InvalidPercentile(Some(p)))
                },
            }
        } else if s == 19 {
            Ok(485)
        } else if s == 20 {
            Ok(535)
        } else if s == 21 {
            Ok(635)
        } else if s == 22 {
            Ok(785)
        } else if s == 23 {
            Ok(935)
        } else if s == 24 {
            Ok(1235)
        } else if s == 25 {
            Ok(1535)
        } else {
            Err(CharError::InvalidStrength(s))
        }
    }

    /// The maximum press derived from the committed strength and percentile.
    pub fn max_press(&self) -> (r: Result<i32, CharError>)
        ensures
            r == spec_max_press(self.strength, self.per),
    {
        let s = self.strength;
        if s == 1 {
            Ok(3)
        } else if s == 2 {
            Ok(5)
        } else if s == 3 {
            Ok(10)
        } else if 4 <= s && s <= 5 {
            Ok(25)
        } else if 6 <= s && s <= 7 {
            Ok(55)
        } else if 8 <= s && s <= 9 {
            Ok(90)
        } else if 10 <= s && s <= 11 {
            Ok(115)
        } else if 12 <= s && s <= 13 {
            Ok(140)
        } else if 14 <= s && s <= 15 {
            Ok(170)
        } else if s == 16 {
            Ok(195)
        } else if s == 17 {
            Ok(220)
        } else if s == 18 {
            match self.per {
                None => Ok(255),
                Some(p) => if 1 <= p && p <= 50 {
                    Ok(280)
                } else if 51 <= p && p <= 75 {
                    Ok(305)
                } else if 76 <= p && p <= 90 {
                    Ok(330)
                } else if 91 <= p && p <= 99 {
                    Ok(380)
                } else if p == 100 {
                    Ok(480)
                } else {
                    Err(CharError::InvalidPercentile(Some(p)))
                },
            }
        } else if s == 19 {
            Ok(640)
        } else if s == 20 {
            Ok(700)
        } else if s == 21 {
            Ok(810)
        } else if s == 22 {
            Ok(970)
        } else if s == 23 {
            Ok(1130)
        } else if s == 24 {
            Ok(1440)
        } else if s == 25 {
            Ok(1750)
        } else {
            Err(CharError::InvalidStrength(s))
        }
    }

    /// The open-doors capacity: the same rule set as the maximum press.
    pub fn open_doors(&self) -> (r: Result<i32, CharError>)
        ensures
            r == spec_max_press(self.strength, self.per),
    {
        self.max_press()
    }
}

/// The four recognized character classes.
#[derive(Debug, Clone, Copy, PartialEq, Eq, Structural)]
pub enum CharacterClass {
    Fighter,
    Cleric,
    Wizard,
    Rogue,
}

/// The class named by a label, matched case-sensitively, if any.
pub open spec fn class_of_label(s: Seq<char>) -> Option<CharacterClass> {
    if s == "Fighter"@ {
        Some(CharacterClass::Fighter)
    } else if s == "Cleric"@ {
        Some(CharacterClass::Cleric)
    } else if s == "Wizard"@ {
        Some(CharacterClass::Wizard)
    } else if s == "Rogue"@ {
        Some(CharacterClass::Rogue)
    } else {
        None
    }
}

/// The display label of a class.
pub open spec fn spec_label(c: CharacterClass) -> Seq<char> {
    match c {
        CharacterClass::Fighter => "Fighter"@,
        CharacterClass::Cleric => "Cleric"@,
        CharacterClass::Wizard => "Wizard"@,
        CharacterClass::Rogue => "Rogue"@,
    }
}

impl CharacterClass {
    /// The label under which the class is rendered and parsed.
    pub fn label(&self) -> (r: &'static str)
        ensures
            r@ == spec_label(*self),
    {
        match self {
            CharacterClass::Fighter => "Fighter",
            CharacterClass::Cleric => "Cleric",
            CharacterClass::Wizard => "Wizard",
            CharacterClass::Rogue => "Rogue",
        }
    }

    /// Parses a class label, matched case-sensitively against the four
    /// recognized labels; any other input is a classified error carrying the
    /// offending text.
    pub fn from_str(s: &str) -> (r: Result<CharacterClass, CharError>)
        ensures
            class_of_label(s@) matches Some(c) ==> r == Ok::<CharacterClass, CharError>(c),
            class_of_label(s@) is None ==> (r matches Err(e) && e matches
                CharError::CharacterClassParseError(t) && t@ == s@),
    {
        if str_eq(s, "Fighter") {
            Ok(CharacterClass::Fighter)
        } else if str_eq(s, "Cleric") {
            Ok(CharacterClass::Cleric)
        } else if str_eq(s, "Wizard") {
            Ok(CharacterClass::Wizard)
        } else if str_eq(s, "Rogue") {
            Ok(CharacterClass::Rogue)
        } else {
            Err(CharError::CharacterClassParseError(s.to_owned()))
        }
    }
}

impl Default for CharacterClass {
    /// The class a character starts with before any valid class edit.
    fn default() -> (r: Self)
        ensures
            r == CharacterClass::Fighter,
    {
        CharacterClass::Fighter
    }
}

/// The mutable character record. One instance is created at start with
/// default values and lives for the session; only the dispatcher mutates it.
#[derive(Debug, Clone)]
pub struct Character {
    pub char_name: String,
    pub char_class: Option<CharacterClass>,
    /// `0` is the unset sentinel before the first legal strength edit.
    pub strength: i32,
    /// Meaningful only at strength 18. A stored value may sit outside
    /// `[1, 100]`: an out-of-range percentile edit is committed before its
    /// error is reported, so this field and the band check stay in sync.
    pub strength_percentile: Option<i32>,
    pub dexterity: Option<i32>,
    pub constitution: Option<i32>,
    pub intelligence: Option<i32>,
    pub wisdom: Option<i32>,
    pub charisma: Option<i32>,
}

impl Character {
    /// The record's invariant: strength stays at the unset sentinel `0`
    /// until a first legal edit commits a value in `[1, 25]`.
    pub open spec fn wf(&self) -> bool {
        self.strength == 0 || 1 <= self.strength <= 25
    }
}

impl Default for Character {
    /// A blank character: empty name, no class, every score unset.
    fn default() -> (c: Character)
        ensures
            c.char_name@ == Seq::<char>::empty(),
            c.char_class is None,
            c.strength == 0,
            c.strength_percentile is None,
            c.dexterity is None,
            c.constitution is None,
            c.intelligence is None,
            c.wisdom is None,
            c.charisma is None,
            c.wf(),
    {
        Character {
            char_name: String::new(),
            char_class: None,
            strength: 0,
            strength_percentile: None,
            dexterity: None,
            constitution: None,
            intelligence: None,
            wisdom: None,
            charisma: None,
        }
    }
}

/// The JSON value for an optional class: its quoted label, or `null`.
pub open spec fn class_json(c: Option<CharacterClass>) -> Seq<char> {
    match c {
        None => "null"@,
        Some(CharacterClass::Fighter) => "\"Fighter\""@,
        Some(CharacterClass::Cleric) => "\"Cleric\""@,
        Some(CharacterClass::Wizard) => "\"Wizard\""@,
        Some(CharacterClass::Rogue) => "\"Rogue\""@,
    }
}

/// The full JSON snapshot of a character: one flat object whose keys appear
/// in declaration order after every edit.
pub open spec fn spec_snapshot(c: Character) -> Seq<char> {
    "{\"char_name\":"@ + json_str_of(c.char_name@) + ",\"char_class\":"@ + class_json(c.char_class)
        + ",\"str\":"@ + int_chars(c.strength as int) + ",\"str_percentile\":"@ + opt_int_chars(
        c.strength_percentile,
    ) + ",\"dex\":"@ + opt_int_chars(c.dexterity) + ",\"con\":"@ + opt_int_chars(c.constitution)
        + ",\"int\":"@ + opt_int_chars(c.intelligence) + ",\"wis\":"@ + opt_int_chars(c.wisdom)
        + ",\"cha\":"@ + opt_int_chars(c.charisma) + "}"@
}

/// Whether a raw strength edit commits: it parses and lands in `[1, 25]`.
pub open spec fn str_edit_ok(s: Seq<char>) -> bool {
    parses_to_i32(s) && 1 <= int_literal_val(s) <= 25
}

/// The error a strength edit reports, if any.
pub open spec fn str_edit_err(s: Seq<char>) -> Option<CharError> {
    if !parses_to_i32(s) {
        Some(CharError::StrParseError)
    } else if !(1 <= int_literal_val(s) <= 25) {
        Some(CharError::InvalidStrength(int_literal_val(s) as i32))
    } else {
        None
    }
}

/// The error a percentile edit reports, if any. An empty edit is a valid
/// clear, and an out-of-range value errs even though it is stored.
pub open spec fn percentile_edit_err(s: Seq<char>) -> Option<CharError> {
    if s.len() == 0 {
        None
    } else if !parses_to_i32(s) {
        Some(CharError::PercentParseError)
    } else if !(1 <= int_literal_val(s) <= 100) {
        Some(CharError::InvalidPercentile(Some(int_literal_val(s) as i32)))
    } else {
        None
    }
}

/// The value an optional ability score takes after a raw edit: the parsed
/// integer, of any magnitude that fits the score's type, or cleared when
/// the text holds no such integer.
pub open spec fn ability_after(s: Seq<char>) -> Option<i32> {
    if parses_to_i32(s) {
        Some(int_literal_val(s) as i32)
    } else {
        None
    }
}

/// The state after one edit message: the field validator the message routes
/// to, applied to the current record. A failed edit never mutates the field
/// it aimed at, with one deliberate exception: an out-of-range percentile is
/// committed even as its error is reported (see `Character::strength_percentile`).
pub open spec fn next_state(c: Character, m: In) -> Character {
    match m {
        In::CharName(s) => Character { char_name: s, ..c },
        In::CharClass(s) => match class_of_label(s@) {
            Some(cc) => Character { char_class: Some(cc), ..c },
            None => c,
        },
        In::Str(s) => if str_edit_ok(s@) {
            Character { strength: int_literal_val(s@) as i32, ..c }
        } else {
            c
        },
        In::StrPercentile(s) => if s@.len() == 0 {
            Character { strength_percentile: None, ..c }
        } else if parses_to_i32(s@) {
            Character { strength_percentile: Some(int_literal_val(s@) as i32), ..c }
        } else {
            c
        },
        In::Dex(s) => Character { dexterity: ability_after(s@), ..c },
        In::Con(s) => Character { constitution: ability_after(s@), ..c },
        In::Int(s) => Character { intelligence: ability_after(s@), ..c },
        In::Wis(s) => Character { wisdom: ability_after(s@), ..c },
        In::Cha(s) => Character { charisma: ability_after(s@), ..c },
    }
}

/// Whether `o` is the snapshot message for state `c`.
pub open spec fn is_snapshot_msg(o: Out, c: Character) -> bool {
    &&& o matches Out::JsonRender(j)
    &&& j matches Some(js)
    &&& js@ == spec_snapshot(c)
}

/// The view messages one edit publishes, in their fixed order: the field's
/// own message, where the field has one, then the snapshot of the new state.
/// A name edit has no field message, and an unrecognized class label is
/// deliberately swallowed rather than surfaced.
pub open spec fn emitted(pre: Character, m: In, outs: Seq<Out>) -> bool {
    let post = next_state(pre, m);
    match m {
        In::CharName(_) => outs.len() == 1 && is_snapshot_msg(outs[0], post),
        In::CharClass(s) => match class_of_label(s@) {
            Some(cc) => outs.len() == 2 && outs[0] == Out::CharClass(cc) && is_snapshot_msg(
                outs[1],
                post,
            ),
            None => outs.len() == 1 && is_snapshot_msg(outs[0], post),
        },
        In::Str(s) => outs.len() == 2 && outs[0] == Out::StrPercentile(
            StrengthPercentile {
                strength: post.strength,
                per: post.strength_percentile,
                err: str_edit_err(s@),
            },
        ) && is_snapshot_msg(outs[1], post),
        In::StrPercentile(s) => outs.len() == 2 && outs[0] == Out::StrPercentile(
            StrengthPercentile {
                strength: post.strength,
                per: post.strength_percentile,
                err: percentile_edit_err(s@),
            },
        ) && is_snapshot_msg(outs[1], post),
        In::Dex(s) => outs.len() == 2 && outs[0] == Out::Dex(ability_after(s@))
            && is_snapshot_msg(outs[1], post),
        In::Con(s) => outs.len() == 2 && outs[0] == Out::Con(ability_after(s@))
            && is_snapshot_msg(outs[1], post),
        In::Int(s) => outs.len() == 2 && outs[0] == Out::Int(ability_after(s@))
            && is_snapshot_msg(outs[1], post),
        In::Wis(s) => outs.len() == 2 && outs[0] == Out::Wis(ability_after(s@))
            && is_snapshot_msg(outs[1], post),
        In::Cha(s) => outs.len() == 2 && outs[0] == Out::Cha(ability_after(s@))
            && is_snapshot_msg(outs[1], post),
    }
}

impl Character {
    /// Serializes the record to its flat JSON snapshot. Building the
    /// snapshot cannot fail, so the result is always present; the `Option`
    /// shape is what snapshot consumers accept.
    pub fn to_json_string(&self) -> (r: Option<String>)
        ensures
            r matches Some(js) && js@ == spec_snapshot(*self),
    {
        let mut out = String::new();
        out.append("{\"char_name\":");
        let name_json = json_string_literal(self.char_name.as_str());
        out.append(name_json.as_str());
        out.append(",\"char_class\":");
        match self.char_class {
            None => out.append("null"),
            Some(CharacterClass::Fighter) => out.append("\"Fighter\""),
            Some(CharacterClass::Cleric) => out.append("\"Cleric\""),
            Some(CharacterClass::Wizard) => out.append("\"Wizard\""),
            Some(CharacterClass::Rogue) => out.append("\"Rogue\""),
        }
        out.append(",\"str\":");
        append_i32(&mut out, self.strength);
        out.append(",\"str_percentile\":");
        append_opt_i32(&mut out, self.strength_percentile);
        out.append(",\"dex\":");
        append_opt_i32(&mut out, self.dexterity);
        out.append(",\"con\":");
        append_opt_i32(&mut out, self.constitution);
        out.append(",\"int\":");
        append_opt_i32(&mut out, self.intelligence);
        out.append(",\"wis\":");
        append_opt_i32(&mut out, self.wisdom);
        out.append(",\"cha\":");
        append_opt_i32(&mut out, self.charisma);
        out.append("}");
        Some(out)
    }

    /// Validates and commits a raw strength edit: the input must parse and
    /// land in `[1, 25]`; a failed edit leaves the record untouched.
    pub fn handle_str_update(&mut self, input: &str) -> (r: Result<i32, CharError>)
        ensures
            str_edit_ok(input@) ==> *final(self) == (Character {
                strength: int_literal_val(input@) as i32,
                ..*old(self)
            }) && r == Ok::<i32, CharError>(int_literal_val(input@) as i32),
            !parses_to_i32(input@) ==> *final(self) == *old(self) && r == Err::<i32, CharError>(
                CharError::StrParseError,
            ),
            parses_to_i32(input@) && !str_edit_ok(input@) ==> *final(self) == *old(self) && r
                == Err::<i32, CharError>(
                CharError::InvalidStrength(int_literal_val(input@) as i32),
            ),
    {
        match parse_i32(input) {
            None => Err(CharError::StrParseError),
            Some(v) => {
                if 1 <= v && v <= 25 {
                    self.strength = v;
                    Ok(v)
                } else {
                    Err(CharError::InvalidStrength(v))
                }
            },
        }
    }

    /// Validates and commits a raw percentile edit. An empty input is a
    /// valid clear; a non-integer leaves the record untouched; an integer is
    /// committed even when it sits outside `[1, 100]`, in which case its
    /// error is still reported.
    pub fn handle_str_percentile_update(&mut self, input: &str) -> (r: Result<
        Option<i32>,
        CharError,
    >)
        ensures
            input@.len() == 0 ==> *final(self) == (Character {
                strength_percentile: None,
                ..*old(self)
            }) && r == Ok::<Option<i32>, CharError>(None),
            input@.len() > 0 && !parses_to_i32(input@) ==> *final(self) == *old(self) && r
                == Err::<Option<i32>, CharError>(CharError::PercentParseError),
            input@.len() > 0 && parses_to_i32(input@) ==> *final(self) == (Character {
                strength_percentile: Some(int_literal_val(input@) as i32),
                ..*old(self)
            }) && r == (if 1 <= int_literal_val(input@) <= 100 {
                Ok::<Option<i32>, CharError>(Some(int_literal_val(input@) as i32))
            } else {
                Err::<Option<i32>, CharError>(
                    CharError::InvalidPercentile(Some(int_literal_val(input@) as i32)),
                )
            }),
    {
        if input.unicode_len() == 0 {
            self.strength_percentile = None;
            return Ok(None);
        }
        match parse_i32(input) {
            None => Err(CharError::PercentParseError),
            Some(v) => {
                self.strength_percentile = Some(v);
                if 1 <= v && v <= 100 {
                    Ok(Some(v))
                } else {
                    Err(CharError::InvalidPercentile(Some(v)))
                }
            },
        }
    }

    /// Processes one edit message to completion: routes it to its field's
    /// validator, mutates at most that field, and returns the view messages
    /// in their fixed order, the JSON snapshot of the new state last.
    pub fn update(&mut self, msg: &In) -> (outs: Vec<Out>)
        ensures
            old(self).wf() ==> final(self).wf(),
            *final(self) == next_state(*old(self), *msg),
            emitted(*old(self), *msg, outs@),
    {
        let mut outs: Vec<Out> = Vec::new();
        match msg {
            In::CharName(input) => {
                self.char_name = input.clone();
            },
            In::CharClass(input) => {
                match CharacterClass::from_str(input.as_str()) {
                    Ok(cc) => {
                        self.char_class = Some(cc);
                        outs.push(Out::CharClass(cc));
                    },
                    Err(_e) => {
                        // an unrecognized label is deliberately swallowed:
                        // the view layer sees no class message, only the
                        // snapshot of the unchanged record
                    },
                }
            },
            In::Str(input) => {
                match self.handle_str_update(input.as_str()) {
                    Ok(_v) => {
                        outs.push(
                            Out::StrPercentile(
                                StrengthPercentile {
                                    strength: self.strength,
                                    per: self.strength_percentile,
                                    err: None,
                                },
                            ),
                        );
                    },
                    Err(e) => {
                        outs.push(
                            Out::StrPercentile(
                                StrengthPercentile {
                                    strength: self.strength,
                                    per: self.strength_percentile,
                                    err: Some(e),
                                },
                            ),
                        );
                    },
                }
            },
            In::StrPercentile(input) => {
                match self.handle_str_percentile_update(input.as_str()) {
                    Ok(_v) => {
                        outs.push(
                            Out::StrPercentile(
                                StrengthPercentile {
                                    strength: self.strength,
                                    per: self.strength_percentile,
                                    err: None,
                                },
                            ),
                        );
                    },
                    Err(e) => {
                        outs.push(
                            Out::StrPercentile(
                                StrengthPercentile {
                                    strength: self.strength,
                                    per: self.strength_percentile,
                                    err: Some(e),
                                },
                            ),
                        );
                    },
                }
            },
            In::Dex(input) => {
                let v = parse_i32(input.as_str());
                self.dexterity = v;
                outs.push(Out::Dex(v));
            },
            In::Con(input) => {
                let v = parse_i32(input.as_str());
                self.constitution = v;
                outs.push(Out::Con(v));
            },
            In::Int(input) => {
                let v = parse_i32(input.as_str());
                self.intelligence = v;
                outs.push(Out::Int(v));
            },
            In::Wis(input) => {
                let v = parse_i32(input.as_str());
                self.wisdom = v;
                outs.push(Out::Wis(v));
            },
            In::Cha(input) => {
                let v = parse_i32(input.as_str());
                self.charisma = v;
                outs.push(Out::Cha(v));
            },
        }
        let json_render = self.to_json_string();
        outs.push(Out::JsonRender(json_render));
        outs
    }
}

/// At strength 18 a present percentile in `[1, 100]` selects the percentile
/// sub-band of each table; this law fixes every sub-band boundary and value.
pub proof fn lemma_strength_18_bands(p: i32)
    requires
        1 <= p <= 100,
    ensures
        1 <= p <= 50 ==> spec_hit_adj(18, Some(p)) == Ok::<i32, CharError>(1),
        51 <= p <= 99 ==> spec_hit_adj(18, Some(p)) == Ok::<i32, CharError>(2),
        p == 100 ==> spec_hit_adj(18, Some(p)) == Ok::<i32, CharError>(3),
        1 <= p <= 75 ==> spec_damage_adj(18, Some(p)) == Ok::<i32, CharError>(3),
        76 <= p <= 90 ==> spec_damage_adj(18, Some(p)) == Ok::<i32, CharError>(4),
        91 <= p <= 99 ==> spec_damage_adj(18, Some(p)) == Ok::<i32, CharError>(5),
        p == 100 ==> spec_damage_adj(18, Some(p)) == Ok::<i32, CharError>(6),
        1 <= p <= 50 ==> spec_weight_allow(18, Some(p)) == Ok::<i32, CharError>(135),
        51 <= p <= 75 ==> spec_weight_allow(18, Some(p)) == Ok::<i32, CharError>(160),
        76 <= p <= 90 ==> spec_weight_allow(18, Some(p)) == Ok::<i32, CharError>(185),
        91 <= p <= 99 ==> spec_weight_allow(18, Some(p)) == Ok::<i32, CharError>(235),
        p == 100 ==> spec_weight_allow(18, Some(p)) == Ok::<i32, CharError>(335),
        1 <= p <= 50 ==> spec_max_press(18, Some(p)) == Ok::<i32, CharError>(280),
        51 <= p <= 75 ==> spec_max_press(18, Some(p)) == Ok::<i32, CharError>(305),
        76 <= p <= 90 ==> spec_max_press(18, Some(p)) == Ok::<i32, CharError>(330),
        91 <= p <= 99 ==> spec_max_press(18, Some(p)) == Ok::<i32, CharError>(380),
        p == 100 ==> spec_max_press(18, Some(p)) == Ok::<i32, CharError>(480),
{
}

/// Away from strength 18 the tables ignore the percentile entirely: any two
/// percentiles, present, absent or out of range, derive the same statistics.
pub proof fn lemma_percentile_ignored_off_18(s: i32, p1: Option<i32>, p2: Option<i32>)
    requires
        1 <= s <= 25,
        s != 18,
    ensures
        spec_hit_adj(s, p1) == spec_hit_adj(s, p2),
        spec_damage_adj(s, p1) == spec_damage_adj(s, p2),
        spec_weight_allow(s, p1) == spec_weight_allow(s, p2),
        spec_max_press(s, p1) == spec_max_press(s, p2),
{
}

/// A strength outside `[1, 25]` fails every table lookup with that strength,
/// whatever the percentile.
pub proof fn lemma_invalid_strength(s: i32, p: Option<i32>)
    requires
        !(1 <= s <= 25),
    ensures
        spec_hit_adj(s, p) == Err::<i32, CharError>(CharError::InvalidStrength(s)),
        spec_damage_adj(s, p) == Err::<i32, CharError>(CharError::InvalidStrength(s)),
        spec_weight_allow(s, p) == Err::<i32, CharError>(CharError::InvalidStrength(s)),
        spec_max_press(s, p) == Err::<i32, CharError>(CharError::InvalidStrength(s)),
{
}

/// At strength 18 a stored percentile outside `[1, 100]` fails every table
/// lookup with that percentile, until it is corrected or cleared.
pub proof fn lemma_out_of_range_percentile(p: i32)
    requires
        !(1 <= p <= 100),
    ensures
        spec_hit_adj(18, Some(p)) == Err::<i32, CharError>(CharError::InvalidPercentile(Some(p))),
        spec_damage_adj(18, Some(p)) == Err::<i32, CharError>(
            CharError::InvalidPercentile(Some(p)),
        ),
        spec_weight_allow(18, Some(p)) == Err::<i32, CharError>(
            CharError::InvalidPercentile(Some(p)),
        ),
        spec_max_press(18, Some(p)) == Err::<i32, CharError>(CharError::InvalidPercentile(Some(p))),
{
}

/// At strength 18 with the percentile absent, the tables fall back to the
/// band defaults.
pub proof fn lemma_absent_percentile_defaults()
    ensures
        spec_hit_adj(18, None) == Ok::<i32, CharError>(1),
        spec_damage_adj(18, None) == Ok::<i32, CharError>(2),
        spec_weight_allow(18, None) == Ok::<i32, CharError>(110),
        spec_max_press(18, None) == Ok::<i32, CharError>(255),
{
}

/// Every edit is idempotent: submitting the same message twice leaves the
/// record where the first submission put it, so the two published snapshots
/// are identical.
pub proof fn lemma_update_idempotent(c: Character, m: In)
    ensures
        next_state(next_state(c, m), m) == next_state(c, m),
        spec_snapshot(next_state(next_state(c, m), m)) == spec_snapshot(next_state(c, m)),
{
}

} // verus!
