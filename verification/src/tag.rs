use vstd::prelude::*;

verus! {

/// The category labels a card may carry.
#[derive(Clone, Eq, PartialEq, Structural, Hash, Debug, Copy)]
pub enum Tag {
    Builder,
    Space,
    Earth,
    Jovian,
    Plant,
    Microbe,
    Power,
    Science,
    City,
}

/// A total mapping from tag to the number of times it was played.
pub struct TagCounts {
    pub builder: int,
    pub space: int,
    pub earth: int,
    pub jovian: int,
    pub plant: int,
    pub microbe: int,
    pub power: int,
    pub science: int,
    pub city: int,
}

impl TagCounts {
    /// The count recorded for `tag`.
    pub open spec fn get(self, tag: Tag) -> int {
        match tag {
            Tag::Builder => self.builder,
            Tag::Space => self.space,
            Tag::Earth => self.earth,
            Tag::Jovian => self.jovian,
            Tag::Plant => self.plant,
            Tag::Microbe => self.microbe,
            Tag::Power => self.power,
            Tag::Science => self.science,
            Tag::City => self.city,
        }
    }

    /// The mapping that agrees with `self` everywhere but at `tag`, where it holds `value`.
    pub open spec fn set(self, tag: Tag, value: int) -> TagCounts {
        match tag {
            Tag::Builder => TagCounts { builder: value, ..self },
            Tag::Space => TagCounts { space: value, ..self },
            Tag::Earth => TagCounts { earth: value, ..self },
            Tag::Jovian => TagCounts { jovian: value, ..self },
            Tag::Plant => TagCounts { plant: value, ..self },
            Tag::Microbe => TagCounts { microbe: value, ..self },
            Tag::Power => TagCounts { power: value, ..self },
            Tag::Science => TagCounts { science: value, ..self },
            Tag::City => TagCounts { city: value, ..self },
        }
    }

    /// Every count is representable as an `i32`.
    pub open spec fn in_range(self) -> bool {
        forall|tag: Tag| i32::MIN <= #[trigger] self.get(tag) <= i32::MAX
    }

    /// The mapping in which no tag has been played yet.
    pub open spec fn zero() -> TagCounts {
        TagCounts {
            builder: 0,
            space: 0,
            earth: 0,
            jovian: 0,
            plant: 0,
            microbe: 0,
            power: 0,
            science: 0,
            city: 0,
        }
    }
}

/// One machine integer per tag; no tag is ever missing.
#[derive(Debug, Clone, Copy)]
pub struct TagTable {
    builder: i32,
    space: i32,
    earth: i32,
    jovian: i32,
    plant: i32,
    microbe: i32,
    power: i32,
    science: i32,
    city: i32,
}

impl View for TagTable {
    type V = TagCounts;

    closed spec fn view(&self) -> TagCounts {
        TagCounts {
            builder: self.builder as int,
            space: self.space as int,
            earth: self.earth as int,
            jovian: self.jovian as int,
            plant: self.plant as int,
            microbe: self.microbe as int,
            power: self.power as int,
            science: self.science as int,
            city: self.city as int,
        }
    }
}

impl TagTable {
    /// The table of a game in which no card has been played.
    pub fn new() -> (table: TagTable)
        ensures
            table@ == TagCounts::zero(),
    {
        TagTable {
            builder: 0,
            space: 0,
            earth: 0,
            jovian: 0,
            plant: 0,
            microbe: 0,
            power: 0,
            science: 0,
            city: 0,
        }
    }

    /// Whatever a table holds fits in an `i32`.
    pub proof fn lemma_in_range(self)
        ensures
            self@.in_range(),
    {
    }

    /// The count recorded for `tag`.
    pub fn get(&self, tag: Tag) -> (value: i32)
        ensures
            value == self@.get(tag),
    {
        match tag {
            Tag::Builder => self.builder,
            Tag::Space => self.space,
            Tag::Earth => self.earth,
            Tag::Jovian => self.jovian,
            Tag::Plant => self.plant,
            Tag::Microbe => self.microbe,
            Tag::Power => self.power,
            Tag::Science => self.science,
            Tag::City => self.city,
        }
    }

    /// Records `value` for `tag`.
    pub fn set(&mut self, tag: Tag, value: i32)
        ensures
            final(self)@ == old(self)@.set(tag, value as int),
    {
        match tag {
            Tag::Builder => self.builder = value,
            Tag::Space => self.space = value,
            Tag::Earth => self.earth = value,
            Tag::Jovian => self.jovian = value,
            Tag::Plant => self.plant = value,
            Tag::Microbe => self.microbe = value,
            Tag::Power => self.power = value,
            Tag::Science => self.science = value,
            Tag::City => self.city = value,
        }
    }
}

} // verus!
