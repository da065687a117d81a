use vstd::prelude::*;
use crate::card::Card;
use crate::card::CardId;
use crate::mutation::Mutation;
use crate::mutation::NormalMutation;
use crate::requirement::NewRequirement;
use crate::resource::Resource;
use crate::tag::Tag;

verus! {

/// Collects what is printed on a card, and makes of it the effects of playing the card.
#[derive(Debug)]
pub struct CardBuilder {
    pub card_id: CardId,
    pub cost: i32,
    pub requirement: Option<NewRequirement>,
    pub tags: Vec<Tag>,
    pub victory_points: i32,
    pub other_mutations: Vec<NormalMutation>,
    pub event: bool,
}

/// One count for each tag of the list, in its order.
pub open spec fn tag_mutations(tags: Seq<Tag>) -> Seq<NormalMutation> {
    Seq::new(tags.len(), |i: int| NormalMutation::TagMutation(tags[i]))
}

impl CardBuilder {
    /// How the card is paid for: a building with steel, a space project with titanium,
    /// anything else with megacredits alone.
    pub open spec fn payment(self) -> NormalMutation {
        if self.tags@.contains(Tag::Builder) {
            NormalMutation::BuilderCardPaymentMutation(self.cost)
        } else if self.tags@.contains(Tag::Space) {
            NormalMutation::SpaceCardPaymentMutation(self.cost)
        } else {
            NormalMutation::ResourceMutation(Resource::MegaCredit, (-self.cost) as i32)
        }
    }

    /// The effects of playing the card, in order: the card leaves the hand and is paid for;
    /// its victory points are scored; its tags are counted, unless it is an event; then come
    /// the effects printed on it.
    pub open spec fn effects(self) -> Seq<NormalMutation> {
        seq![NormalMutation::CardPlayMutation(self.card_id), self.payment()] + (if self.victory_points
            > 0 {
            seq![NormalMutation::VictoryPointMutation(self.victory_points)]
        } else {
            Seq::<NormalMutation>::empty()
        }) + (if self.event {
            Seq::<NormalMutation>::empty()
        } else {
            tag_mutations(self.tags@)
        }) + self.other_mutations@
    }

    /// A card with the number zero that costs nothing and does nothing.
    pub fn new() -> (builder: CardBuilder)
        ensures
            builder.card_id == 0,
            builder.cost == 0,
            builder.requirement is None,
            builder.tags@.len() == 0,
            builder.victory_points == 0,
            builder.other_mutations@.len() == 0,
            !builder.event,
    {
        CardBuilder {
            card_id: 0,
            cost: 0,
            requirement: None,
            tags: Vec::new(),
            victory_points: 0,
            other_mutations: Vec::new(),
            event: false,
        }
    }

    /// Gives the card its number.
    pub fn id(self, id: CardId) -> (builder: CardBuilder)
        ensures
            builder == (CardBuilder { card_id: id, ..self }),
    {
        let mut builder = self;
        builder.card_id = id;
        builder
    }

    /// Adds to what the card costs.
    pub fn cost(self, cost: i32) -> (builder: CardBuilder)
        requires
            i32::MIN <= self.cost + cost <= i32::MAX,
        ensures
            builder == (CardBuilder { cost: (self.cost + cost) as i32, ..self }),
    {
        let mut builder = self;
        builder.cost = builder.cost + cost;
        builder
    }

    /// Adds tags to the card.
    pub fn tags(self, tags: Vec<Tag>) -> (builder: CardBuilder)
        ensures
            builder.tags@ == self.tags@ + tags@,
            builder == (CardBuilder { tags: builder.tags, ..self }),
    {
        let mut builder = self;
        let mut tags = tags;
        builder.tags.append(&mut tags);
        builder
    }

    /// Makes the card an event: its tags are not counted when it is played.
    pub fn event(self) -> (builder: CardBuilder)
        ensures
            builder == (CardBuilder { event: true, ..self }),
    {
        let mut builder = self;
        builder.event = true;
        builder
    }

    /// Sets what the card asks of the game.
    pub fn requirement(self, requirement: NewRequirement) -> (builder: CardBuilder)
        ensures
            builder == (CardBuilder { requirement: Some(requirement), ..self }),
    {
        let mut builder = self;
        builder.requirement = Some(requirement);
        builder
    }

    /// Adds an effect to those printed on the card.
    pub fn mutation(self, mutation: NormalMutation) -> (builder: CardBuilder)
        ensures
            builder.other_mutations@ == self.other_mutations@.push(mutation),
            builder == (CardBuilder { other_mutations: builder.other_mutations, ..self }),
    {
        let mut builder = self;
        builder.other_mutations.push(mutation);
        builder
    }

    /// Adds to the victory points that the card scores.
    pub fn victory_points(self, amount: i32) -> (builder: CardBuilder)
        requires
            i32::MIN <= self.victory_points + amount <= i32::MAX,
        ensures
            builder == (CardBuilder {
                victory_points: (self.victory_points + amount) as i32,
                ..self
            }),
    {
        let mut builder = self;
        builder.victory_points = builder.victory_points + amount;
        builder
    }

    /// Whether the card carries `tag`.
    fn has_tag(&self, tag: Tag) -> (found: bool)
        ensures
            found == self.tags@.contains(tag),
    {
        let mut i: usize = 0;
        while i < self.tags.len()
            invariant
                i <= self.tags.len(),
                forall|j: int| 0 <= j < i ==> self.tags@[j] != tag,
            decreases self.tags.len() - i,
        {
            if self.tags[i] == tag {
                return true;
            }
            i = i + 1;
        }
        false
    }

    fn get_payment_mutation(&self) -> (payment: NormalMutation)
        requires
            self.cost > i32::MIN,
        ensures
            payment == self.payment(),
    {
        if self.has_tag(Tag::Builder) {
            NormalMutation::BuilderCardPaymentMutation(self.cost)
        } else if self.has_tag(Tag::Space) {
            NormalMutation::SpaceCardPaymentMutation(self.cost)
        } else {
            NormalMutation::ResourceMutation(Resource::MegaCredit, -self.cost)
        }
    }

    /// The card that the builder describes.
    pub fn build(self) -> (card: Card)
        requires
            self.cost > i32::MIN,
        ensures
            card.requirement == self.requirement,
            card.mutation matches Mutation::Normal(NormalMutation::CompositeMutation(mutations))
                && mutations@ == self.effects(),
    {
        let mut builder = self;
        let mut mutations: Vec<NormalMutation> = Vec::new();
        mutations.push(NormalMutation::CardPlayMutation(builder.card_id));
        mutations.push(builder.get_payment_mutation());
        if builder.victory_points > 0 {
            mutations.push(NormalMutation::VictoryPointMutation(builder.victory_points));
        }
        let ghost head = mutations@;
        if !builder.event {
            let mut i: usize = 0;
            while i < builder.tags.len()
                invariant
                    i <= builder.tags.len(),
                    mutations@ == head + tag_mutations(builder.tags@.take(i as int)),
                decreases builder.tags.len() - i,
            {
                mutations.push(NormalMutation::TagMutation(builder.tags[i]));
                i = i + 1;
            }
        }
        mutations.append(&mut builder.other_mutations);
        Card::new(Mutation::Normal(NormalMutation::CompositeMutation(mutations)), builder.requirement)
    }
}

} // verus!
