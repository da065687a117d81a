use vstd::prelude::*;

verus! {

/// The six kinds of resource a player stocks and produces.
#[derive(Debug, PartialEq, Eq, Structural, Hash, Clone, Copy)]
pub enum Resource {
    MegaCredit,
    Steel,
    Titanium,
    Plant,
    Energy,
    Heat,
}

/// A total mapping from resource kind to a mathematical integer.
pub struct Amounts {
    pub mega_credit: int,
    pub steel: int,
    pub titanium: int,
    pub plant: int,
    pub energy: int,
    pub heat: int,
}

impl Amounts {
    /// The amount recorded for `resource`.
    pub open spec fn get(self, resource: Resource) -> int {
        match resource {
            Resource::MegaCredit => self.mega_credit,
            Resource::Steel => self.steel,
            Resource::Titanium => self.titanium,
            Resource::Plant => self.plant,
            Resource::Energy => self.energy,
            Resource::Heat => self.heat,
        }
    }

    /// The mapping that agrees with `self` everywhere but at `resource`, where it holds `value`.
    pub open spec fn set(self, resource: Resource, value: int) -> Amounts {
        match resource {
            Resource::MegaCredit => Amounts { mega_credit: value, ..self },
            Resource::Steel => Amounts { steel: value, ..self },
            Resource::Titanium => Amounts { titanium: value, ..self },
            Resource::Plant => Amounts { plant: value, ..self },
            Resource::Energy => Amounts { energy: value, ..self },
            Resource::Heat => Amounts { heat: value, ..self },
        }
    }

    /// The mapping in which every kind holds `value`.
    pub open spec fn uniform(value: int) -> Amounts {
        Amounts {
            mega_credit: value,
            steel: value,
            titanium: value,
            plant: value,
            energy: value,
            heat: value,
        }
    }

    /// Every amount is representable as an `i32`.
    pub open spec fn in_range(self) -> bool {
        forall|resource: Resource|
            i32::MIN <= #[trigger] self.get(resource) <= i32::MAX
    }
}

/// One machine integer per resource kind; no kind is ever missing.
#[derive(Debug, Clone, Copy)]
pub struct ResourceTable {
    mega_credit: i32,
    steel: i32,
    titanium: i32,
    plant: i32,
    energy: i32,
    heat: i32,
}

impl View for ResourceTable {
    type V = Amounts;

    closed spec fn view(&self) -> Amounts {
        Amounts {
            mega_credit: self.mega_credit as int,
            steel: self.steel as int,
            titanium: self.titanium as int,
            plant: self.plant as int,
            energy: self.energy as int,
            heat: self.heat as int,
        }
    }
}

impl ResourceTable {
    /// A table in which every kind but megacredits holds `other`.
    pub fn new(mega_credit: i32, other: i32) -> (table: ResourceTable)
        ensures
            table@ == Amounts::uniform(other as int).set(Resource::MegaCredit, mega_credit as int),
    {
        ResourceTable {
            mega_credit,
            steel: other,
            titanium: other,
            plant: other,
            energy: other,
            heat: other,
        }
    }

    /// Whatever a table holds fits in an `i32`.
    pub proof fn lemma_in_range(self)
        ensures
            self@.in_range(),
    {
    }

    /// The amount recorded for `resource`.
    pub fn get(&self, resource: Resource) -> (value: i32)
        ensures
            value == self@.get(resource),
    {
        match resource {
            Resource::MegaCredit => self.mega_credit,
            Resource::Steel => self.steel,
            Resource::Titanium => self.titanium,
            Resource::Plant => self.plant,
            Resource::Energy => self.energy,
            Resource::Heat => self.heat,
        }
    }

    /// Records `value` for `resource`.
    pub fn set(&mut self, resource: Resource, value: i32)
        ensures
            final(self)@ == old(self)@.set(resource, value as int),
    {
        match resource {
            Resource::MegaCredit => self.mega_credit = value,
            Resource::Steel => self.steel = value,
            Resource::Titanium => self.titanium = value,
            Resource::Plant => self.plant = value,
            Resource::Energy => self.energy = value,
            Resource::Heat => self.heat = value,
        }
    }
}

} // verus!
