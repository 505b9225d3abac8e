//! The six primary attributes of an actor and a list holding one value for each.

use vstd::prelude::*;
use crate::text::str_eq;

verus! {

/// One of the six primary attributes.
#[derive(Debug, Copy, Clone, PartialEq, Eq, Hash, PartialOrd, Ord, Structural)]
pub enum Attribute {
    Strength,
    Dexterity,
    Endurance,
    Perception,
    Intellect,
    Wisdom,
}

impl Attribute {
    /// The full name of the attribute.
    pub open spec fn spec_name(self) -> Seq<char> {
        match self {
            Attribute::Strength => "Strength"@,
            Attribute::Dexterity => "Dexterity"@,
            Attribute::Endurance => "Endurance"@,
            Attribute::Perception => "Perception"@,
            Attribute::Intellect => "Intellect"@,
            Attribute::Wisdom => "Wisdom"@,
        }
    }

    /// The three letter name of the attribute.
    pub open spec fn spec_short_name(self) -> Seq<char> {
        match self {
            Attribute::Strength => "str"@,
            Attribute::Dexterity => "dex"@,
            Attribute::Endurance => "end"@,
            Attribute::Perception => "per"@,
            Attribute::Intellect => "int"@,
            Attribute::Wisdom => "wis"@,
        }
    }

    /// All attributes, in their fixed order.
    pub open spec fn all() -> Seq<Attribute> {
        seq![
            Attribute::Strength,
            Attribute::Dexterity,
            Attribute::Endurance,
            Attribute::Perception,
            Attribute::Intellect,
            Attribute::Wisdom,
        ]
    }

    /// The attribute whose full name is `text`, if there is one.
    pub fn from(text: &str) -> (found: Option<Attribute>)
        ensures
            match found {
                Some(attr) => attr.spec_name() == text@,
                None => forall|attr: Attribute| attr.spec_name() != text@,
            },
    {
        if str_eq(text, "Strength") {
            Some(Attribute::Strength)
        } else if str_eq(text, "Dexterity") {
            Some(Attribute::Dexterity)
        } else if str_eq(text, "Endurance") {
            Some(Attribute::Endurance)
        } else if str_eq(text, "Perception") {
            Some(Attribute::Perception)
        } else if str_eq(text, "Intellect") {
            Some(Attribute::Intellect)
        } else if str_eq(text, "Wisdom") {
            Some(Attribute::Wisdom)
        } else {
            None
        }
    }

    /// The full name of the attribute.
    pub fn name(&self) -> (text: &'static str)
        ensures
            text@ == self.spec_name(),
    {
        match *self {
            Attribute::Strength => "Strength",
            Attribute::Dexterity => "Dexterity",
            Attribute::Endurance => "Endurance",
            Attribute::Perception => "Perception",
            Attribute::Intellect => "Intellect",
            Attribute::Wisdom => "Wisdom",
        }
    }

    /// The three letter name of the attribute.
    pub fn short_name(&self) -> (text: &'static str)
        ensures
            text@ == self.spec_short_name(),
    {
        match *self {
            Attribute::Strength => "str",
            Attribute::Dexterity => "dex",
            Attribute::Endurance => "end",
            Attribute::Perception => "per",
            Attribute::Intellect => "int",
            Attribute::Wisdom => "wis",
        }
    }

    /// All attributes, in their fixed order.
    pub fn iter() -> (list: Vec<Attribute>)
        ensures
            list@ == Attribute::all(),
    {
        let mut list: Vec<Attribute> = Vec::new();
        list.push(Attribute::Strength);
        list.push(Attribute::Dexterity);
        list.push(Attribute::Endurance);
        list.push(Attribute::Perception);
        list.push(Attribute::Intellect);
        list.push(Attribute::Wisdom);
        list
    }
}

/// No two attributes share a full name, so a name identifies its attribute.
pub proof fn lemma_names_distinct(a: Attribute, b: Attribute)
    requires
        a.spec_name() == b.spec_name(),
    ensures
        a == b,
{
    reveal_strlit("Strength");
    reveal_strlit("Dexterity");
    reveal_strlit("Endurance");
    reveal_strlit("Perception");
    reveal_strlit("Intellect");
    reveal_strlit("Wisdom");
    assert("Strength"@[0] == 'S');
    assert("Dexterity"@[0] == 'D');
    assert("Endurance"@[0] == 'E');
    assert("Perception"@[0] == 'P');
    assert("Intellect"@[0] == 'I');
    assert("Wisdom"@[0] == 'W');
    assert(a.spec_name()[0] == b.spec_name()[0]);
}

/// No two attributes share a short name.
pub proof fn lemma_short_names_distinct(a: Attribute, b: Attribute)
    requires
        a.spec_short_name() == b.spec_short_name(),
    ensures
        a == b,
{
    reveal_strlit("str");
    reveal_strlit("dex");
    reveal_strlit("end");
    reveal_strlit("per");
    reveal_strlit("int");
    reveal_strlit("wis");
    assert("str"@[0] == 's');
    assert("dex"@[0] == 'd');
    assert("end"@[0] == 'e');
    assert("per"@[0] == 'p');
    assert("int"@[0] == 'i');
    assert("wis"@[0] == 'w');
    assert(a.spec_short_name()[0] == b.spec_short_name()[0]);
}

/// Every attribute appears in `Attribute::all()`.
pub proof fn lemma_all_is_complete(a: Attribute)
    ensures
        Attribute::all().contains(a),
        Attribute::all().len() == 6,
{
    match a {
        Attribute::Strength => assert(Attribute::all()[0] == a),
        Attribute::Dexterity => assert(Attribute::all()[1] == a),
        Attribute::Endurance => assert(Attribute::all()[2] == a),
        Attribute::Perception => assert(Attribute::all()[3] == a),
        Attribute::Intellect => assert(Attribute::all()[4] == a),
        Attribute::Wisdom => assert(Attribute::all()[5] == a),
    }
}

/// What the entries of `attrs` add up to for the attribute `attr`.
pub open spec fn total_for(attrs: Seq<(Attribute, u8)>, attr: Attribute) -> int
    decreases attrs.len(),
{
    if attrs.len() == 0 {
        0
    } else {
        let last = attrs.last();
        total_for(attrs.drop_last(), attr) + if last.0 == attr {
            last.1 as int
        } else {
            0
        }
    }
}

/// The total over a prefix is never more than the total over the whole.
pub proof fn lemma_total_for_prefix(attrs: Seq<(Attribute, u8)>, n: int, attr: Attribute)
    requires
        0 <= n <= attrs.len(),
    ensures
        0 <= total_for(attrs.take(n), attr) <= total_for(attrs, attr),
    decreases attrs.len(),
{
    if n == attrs.len() {
        assert(attrs.take(n) =~= attrs);
        if attrs.len() > 0 {
            lemma_total_for_prefix(attrs.drop_last(), n - 1, attr);
            assert(attrs.drop_last().take(n - 1) =~= attrs.drop_last());
        }
    } else {
        lemma_total_for_prefix(attrs.drop_last(), n, attr);
        assert(attrs.drop_last().take(n) =~= attrs.take(n));
    }
}

/// One value for each attribute.
#[derive(Debug, Copy, Clone, PartialEq, Eq, Structural)]
pub struct AttributeList {
    pub strength: u8,
    pub dexterity: u8,
    pub endurance: u8,
    pub perception: u8,
    pub intellect: u8,
    pub wisdom: u8,
}

impl AttributeList {
    /// The value stored for `attr`.
    pub open spec fn value(self, attr: Attribute) -> u8 {
        match attr {
            Attribute::Strength => self.strength,
            Attribute::Dexterity => self.dexterity,
            Attribute::Endurance => self.endurance,
            Attribute::Perception => self.perception,
            Attribute::Intellect => self.intellect,
            Attribute::Wisdom => self.wisdom,
        }
    }

    /// How far the value of `attr` lies above the baseline `base_attr`.
    pub open spec fn spec_bonus(self, attr: Attribute, base_attr: int) -> int {
        self.value(attr) - base_attr
    }

    /// A list in which every attribute has the value `base_value`.
    pub fn new(base_value: u8) -> (list: AttributeList)
        ensures
            forall|a: Attribute| list.value(a) == base_value,
    {
        AttributeList {
            strength: base_value,
            dexterity: base_value,
            endurance: base_value,
            perception: base_value,
            intellect: base_value,
            wisdom: base_value,
        }
    }

    /// How far the value of `attr` lies above the baseline `base_attr`;
    /// negative when it lies below.
    pub fn bonus(&self, attr: Attribute, base_attr: i32) -> (b: i32)
        requires
            self.spec_bonus(attr, base_attr as int) <= i32::MAX,
        ensures
            b == self.spec_bonus(attr, base_attr as int),
    {
        let v: i32 = self.get(attr) as i32;
        v - base_attr
    }

    /// The value stored for `attr`.
    pub fn get(&self, attr: Attribute) -> (v: u8)
        ensures
            v == self.value(attr),
    {
        match attr {
            Attribute::Strength => self.strength,
            Attribute::Dexterity => self.dexterity,
            Attribute::Endurance => self.endurance,
            Attribute::Perception => self.perception,
            Attribute::Intellect => self.intellect,
            Attribute::Wisdom => self.wisdom,
        }
    }

    /// Stores `value` for `attr` and leaves the other attributes as they were.
    pub fn set(&mut self, attr: Attribute, value: u8)
        ensures
            final(self).value(attr) == value,
            forall|a: Attribute| a != attr ==> final(self).value(a) == old(self).value(a),
    {
        match attr {
            Attribute::Strength => self.strength = value,
            Attribute::Dexterity => self.dexterity = value,
            Attribute::Endurance => self.endurance = value,
            Attribute::Perception => self.perception = value,
            Attribute::Intellect => self.intellect = value,
            Attribute::Wisdom => self.wisdom = value,
        }
    }

    /// Adds every entry of `attrs` to the attribute it names.
    pub fn add_all(&mut self, attrs: &Vec<(Attribute, u8)>)
        requires
            forall|a: Attribute| old(self).value(a) + total_for(attrs@, a) <= u8::MAX,
        ensures
            forall|a: Attribute| final(self).value(a) == old(self).value(a) + total_for(attrs@, a),
    {
        let mut i: usize = 0;
        while i < attrs.len()
            invariant
                0 <= i <= attrs.len(),
                forall|a: Attribute| old(self).value(a) + total_for(attrs@, a) <= u8::MAX,
                forall|a: Attribute|
                    self.value(a) == old(self).value(a) + total_for(attrs@.take(i as int), a),
            decreases attrs.len() - i,
        {
            let (attr, value) = attrs[i];
            proof {
                assert(attrs@.take(i + 1).drop_last() =~= attrs@.take(i as int));
                lemma_total_for_prefix(attrs@, i + 1, attr);
            }
            self.add(attr, value);
            i += 1;
        }
        assert(attrs@.take(i as int) =~= attrs@);
    }

    /// Adds `value` to `attr` and leaves the other attributes as they were.
    pub fn add(&mut self, attr: Attribute, value: u8)
        requires
            old(self).value(attr) + value <= u8::MAX,
        ensures
            final(self).value(attr) == old(self).value(attr) + value,
            forall|a: Attribute| a != attr ==> final(self).value(a) == old(self).value(a),
    {
        match attr {
            Attribute::Strength => self.strength += value,
            Attribute::Dexterity => self.dexterity += value,
            Attribute::Endurance => self.endurance += value,
            Attribute::Perception => self.perception += value,
            Attribute::Intellect => self.intellect += value,
            Attribute::Wisdom => self.wisdom += value,
        }
    }

    /// The list that holds, for each attribute, the sum of the two values.
    pub fn sum(&self, other: &AttributeList) -> (total: AttributeList)
        requires
            forall|a: Attribute| self.value(a) + other.value(a) <= u8::MAX,
        ensures
            forall|a: Attribute| total.value(a) == self.value(a) + other.value(a),
    {
        proof {
            assert(self.value(Attribute::Strength) + other.value(Attribute::Strength) <= u8::MAX);
            assert(self.value(Attribute::Dexterity) + other.value(Attribute::Dexterity) <= u8::MAX);
            assert(self.value(Attribute::Endurance) + other.value(Attribute::Endurance) <= u8::MAX);
            assert(self.value(Attribute::Perception) + other.value(Attribute::Perception)
                <= u8::MAX);
            assert(self.value(Attribute::Intellect) + other.value(Attribute::Intellect) <= u8::MAX);
            assert(self.value(Attribute::Wisdom) + other.value(Attribute::Wisdom) <= u8::MAX);
        }
        AttributeList {
            strength: self.strength + other.strength,
            dexterity: self.dexterity + other.dexterity,
            endurance: self.endurance + other.endurance,
            perception: self.perception + other.perception,
            intellect: self.intellect + other.intellect,
            wisdom: self.wisdom + other.wisdom,
        }
    }
}

} // verus!
