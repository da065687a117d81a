use vstd::prelude::*;
use std::collections::HashMap;
use crate::card::Card;
use crate::card::CardId;
use crate::card_builder::CardBuilder;
use crate::mutation::NormalMutation;
use crate::requirement::NewRequirement;
use crate::resource::Resource;
use crate::tag::Tag;
use crate::tile::Tile;

verus! {

/// The numbers of all cards, in ascending order.
pub open spec fn card_numbers() -> Seq<CardId> {
    seq![
        1i32, 3i32, 4i32, 9i32, 10i32, 11i32, 16i32, 17i32, 18i32, 19i32, 22i32, 26i32,
        29i32, 30i32, 32i32, 36i32, 37i32, 39i32, 40i32, 41i32, 42i32, 43i32, 45i32, 47i32,
        48i32, 53i32, 55i32, 58i32, 60i32, 63i32, 75i32, 77i32, 78i32, 80i32, 83i32, 87i32,
        88i32, 89i32, 93i32, 100i32, 108i32, 113i32, 114i32, 117i32, 118i32, 119i32, 122i32, 126i32,
        127i32, 132i32, 136i32, 143i32, 145i32, 146i32, 155i32, 158i32, 159i32, 161i32, 162i32, 168i32,
        169i32, 170i32, 171i32, 176i32, 179i32, 180i32, 181i32, 190i32, 191i32, 193i32, 203i32, 205i32,
    ]
}

/// The number is printed on a card of the compendium.
pub open spec fn is_card_id(id: CardId) -> bool {
    card_numbers().contains(id)
}

/// The numbers of the cards are listed in strictly ascending order, so none is listed twice.
pub proof fn lemma_card_numbers_ascend()
    ensures
        forall|i: int, j: int|
            0 <= i < j < card_numbers().len() ==> card_numbers()[i] < card_numbers()[j],
        card_numbers().no_duplicates(),
{
}

/// The numbers of all cards, in ascending order.
pub fn build_card_id_list() -> (card_ids: Vec<CardId>)
    ensures
        card_ids@ == card_numbers(),
{
    let card_ids: Vec<CardId> = vec![
        1, 3, 4, 9, 10, 11, 16, 17, 18, 19, 22, 26,
        29, 30, 32, 36, 37, 39, 40, 41, 42, 43, 45, 47,
        48, 53, 55, 58, 60, 63, 75, 77, 78, 80, 83, 87,
        88, 89, 93, 100, 108, 113, 114, 117, 118, 119, 122, 126,
        127, 132, 136, 143, 145, 146, 155, 158, 159, 161, 162, 168,
        169, 170, 171, 176, 179, 180, 181, 190, 191, 193, 203, 205,
    ];
    card_ids
}

/// The start of every event in space.
fn space_event() -> (builder: CardBuilder)
    ensures
        builder.card_id == 0,
        builder.cost == 0,
        builder.requirement is None,
        builder.tags@ == seq![Tag::Space],
        builder.victory_points == 0,
        builder.other_mutations@ == Seq::<NormalMutation>::empty(),
        builder.event,
{
    CardBuilder::new().tags(vec![Tag::Space]).event()
}

/// The start of every city on the planet: it takes energy and queues a city tile.
fn martian_city() -> (builder: CardBuilder)
    ensures
        builder.card_id == 0,
        builder.cost == 0,
        builder.requirement is None,
        builder.tags@ == seq![Tag::City, Tag::Builder],
        builder.victory_points == 0,
        builder.other_mutations@ == seq![
            NormalMutation::ProductionMutation(Resource::Energy, (-1) as i32),
            NormalMutation::TileQueuingMutation(Tile::City),
        ],
        !builder.event,
{
    CardBuilder::new()
        .tags(vec![Tag::City, Tag::Builder])
        .mutation(NormalMutation::ProductionMutation(Resource::Energy, -1))
        .mutation(NormalMutation::TileQueuingMutation(Tile::City))
}

/// What is printed on the card with the number `id`, if there is such a card.
pub fn card_builder(id: CardId) -> (found: Option<CardBuilder>)
    ensures
        found is Some <==> is_card_id(id),
        found matches Some(builder) ==> 0 <= builder.cost <= 100,
{
    match id {
        1 => Some(
            CardBuilder::new()
                .cost(8)
                .tags(vec![Tag::Jovian, Tag::Builder])
                .requirement(NewRequirement::MaxOxygen(5))
                .victory_points(2),
        ),
        3 => Some(
            CardBuilder::new()
                .cost(13)
                .tags(vec![Tag::Power, Tag::Builder])
                .mutation(NormalMutation::ProductionMutation(Resource::Energy, 1))
                .mutation(NormalMutation::TemperatureIncreaseMutation(1)),
        ),
        4 => Some(
            CardBuilder::new()
                .cost(13)
                .requirement(NewRequirement::MinOcean(3))
                .mutation(NormalMutation::ProductionMutation(Resource::MegaCredit, -1))
                .mutation(NormalMutation::ProductionMutation(Resource::Plant, 2)),
        ),
        9 => Some(
            space_event()
                .cost(14)
                .mutation(NormalMutation::TemperatureIncreaseMutation(1))
                .mutation(NormalMutation::ResourceMutation(Resource::Titanium, 2)),
        ),
        10 => Some(
            space_event()
                .cost(21)
                .mutation(NormalMutation::TemperatureIncreaseMutation(1))
                .mutation(NormalMutation::TileQueuingMutation(Tile::Ocean)),
        ),
        11 => Some(
            space_event()
                .cost(27)
                .mutation(NormalMutation::TemperatureIncreaseMutation(2))
                .mutation(NormalMutation::ResourceMutation(Resource::Titanium, 4)),
        ),
        16 => Some(
            martian_city()
                .cost(24)
                .requirement(NewRequirement::MaxOxygen(7))
                .mutation(NormalMutation::ProductionMutation(Resource::MegaCredit, 3))
                .mutation(NormalMutation::ResourceMutation(Resource::Plant, 3))
                .victory_points(1),
        ),
        17 => Some(
            martian_city()
                .cost(18)
                .mutation(NormalMutation::ProductionMutation(Resource::MegaCredit, 3)),
        ),
        18 => Some(
            CardBuilder::new()
                .cost(28)
                .tags(vec![Tag::Jovian, Tag::Space])
                .requirement(NewRequirement::MinOxygen(2))
                .mutation(NormalMutation::ProductionMutation(Resource::Heat, 2))
                .mutation(NormalMutation::ProductionMutation(Resource::Plant, 2))
                .victory_points(2),
        ),
        19 => Some(
            space_event()
                .cost(16)
                .tags(vec![Tag::Earth])
                .mutation(NormalMutation::ResourceMutation(Resource::Plant, 3))
                .mutation(NormalMutation::TileQueuingMutation(Tile::Ocean)),
        ),
        22 => Some(
            CardBuilder::new()
                .cost(15)
                .mutation(NormalMutation::ProductionMutation(Resource::MegaCredit, -2))
                .mutation(NormalMutation::ProductionMutation(Resource::Heat, 3))
                .mutation(NormalMutation::TileQueuingMutation(Tile::Ocean)),
        ),
        26 => Some(
            CardBuilder::new()
                .cost(16)
                .tags(vec![Tag::Plant, Tag::Builder])
                .requirement(NewRequirement::MinTemperature(-12))
                .mutation(NormalMutation::ResourceMutation(Resource::Plant, 3))
                .mutation(NormalMutation::ProductionMutation(Resource::MegaCredit, 2))
                .victory_points(1),
        ),
        29 => Some(
            martian_city()
                .cost(16)
                .requirement(NewRequirement::MaxOxygen(9))
                .mutation(NormalMutation::ProductionMutation(Resource::MegaCredit, 3)),
        ),
        30 => Some(
            CardBuilder::new()
                .cost(13)
                .tags(vec![Tag::Earth, Tag::Power])
                .mutation(NormalMutation::ProductionMutation(Resource::MegaCredit, -2))
                .mutation(NormalMutation::ProductionMutation(Resource::Heat, 2))
                .mutation(NormalMutation::ProductionMutation(Resource::Energy, 2)),
        ),
        32 => Some(
            martian_city()
                .cost(18)
                .mutation(NormalMutation::ProductionMutation(Resource::Energy, -1))
                .mutation(NormalMutation::ProductionMutation(Resource::Steel, 2)),
        ),
        36 => Some(
            CardBuilder::new()
                .cost(14)
                .event()
                .mutation(NormalMutation::TrMutation(2)),
        ),
        37 => Some(
            space_event()
                .cost(31)
                .mutation(NormalMutation::ProductionMutation(Resource::Plant, 1))
                .mutation(NormalMutation::TrMutation(2))
                .mutation(NormalMutation::TemperatureIncreaseMutation(1)),
        ),
        39 => Some(
            space_event()
                .cost(31)
                .mutation(NormalMutation::TemperatureIncreaseMutation(3))
                .mutation(NormalMutation::ResourceMutation(Resource::Steel, 4)),
        ),
        40 => Some(
            CardBuilder::new()
                .cost(30)
                .tags(vec![Tag::Jovian, Tag::Space])
                .mutation(NormalMutation::ProductionMutation(Resource::Titanium, 2))
                .victory_points(2),
        ),
        41 => Some(
            CardBuilder::new()
                .cost(12)
                .tags(vec![Tag::Builder])
                .mutation(NormalMutation::ProductionMutation(Resource::Plant, -1))
                .mutation(NormalMutation::ProductionMutation(Resource::MegaCredit, 4))
                .victory_points(1),
        ),
        42 => Some(
            CardBuilder::new()
                .cost(6)
                .tags(vec![Tag::Microbe])
                .requirement(NewRequirement::MaxTemperature(-18))
                .mutation(NormalMutation::ProductionMutation(Resource::Plant, 1)),
        ),
        43 => Some(
            CardBuilder::new()
                .cost(6)
                .tags(vec![Tag::Builder])
                .mutation(NormalMutation::ProductionMutation(Resource::Energy, -1))
                .mutation(NormalMutation::ProductionMutation(Resource::Heat, 3)),
        ),
        45 => Some(
            CardBuilder::new()
                .cost(10)
                .tags(vec![Tag::Power, Tag::Builder])
                .mutation(NormalMutation::ProductionMutation(Resource::MegaCredit, -2))
                .mutation(NormalMutation::ProductionMutation(Resource::Energy, 3)),
        ),
        47 => Some(
            CardBuilder::new()
                .cost(10)
                .tags(vec![Tag::Plant])
                .requirement(NewRequirement::MinOcean(5))
                .mutation(NormalMutation::ProductionMutation(Resource::Plant, 2))
                .mutation(NormalMutation::ResourceMutation(Resource::Plant, 1)),
        ),
        48 => Some(
            CardBuilder::new()
                .cost(9)
                .tags(vec![Tag::Plant])
                .mutation(NormalMutation::ProductionMutation(Resource::Plant, 1)),
        ),
        53 => Some(
            CardBuilder::new()
                .cost(18)
                .requirement(NewRequirement::MinTemperature(0))
                .mutation(NormalMutation::TileQueuingMutation(Tile::Ocean))
                .mutation(NormalMutation::TileQueuingMutation(Tile::Ocean))
                .victory_points(2),
        ),
        55 => Some(
            CardBuilder::new()
                .cost(17)
                .tags(vec![Tag::Plant])
                .requirement(NewRequirement::MinOcean(6))
                .mutation(NormalMutation::ProductionMutation(Resource::MegaCredit, 2))
                .mutation(NormalMutation::ProductionMutation(Resource::Plant, 3))
                .mutation(NormalMutation::ResourceMutation(Resource::Plant, 2))
                .victory_points(1),
        ),
        58 => Some(
            CardBuilder::new()
                .cost(32)
                .tags(vec![Tag::Jovian, Tag::Space, Tag::Power])
                .requirement(NewRequirement::Tag(Tag::Jovian, 1))
                .mutation(NormalMutation::ProductionMutation(Resource::Heat, 3))
                .mutation(NormalMutation::ProductionMutation(Resource::Energy, 3))
                .victory_points(1),
        ),
        60 => Some(
            CardBuilder::new()
                .cost(13)
                .tags(vec![Tag::Plant])
                .requirement(NewRequirement::MinTemperature(-4))
                .mutation(NormalMutation::ProductionMutation(Resource::Plant, 3))
                .mutation(NormalMutation::ResourceMutation(Resource::Plant, 1))
                .victory_points(1),
        ),
        63 => Some(
            CardBuilder::new()
                .cost(12)
                .event()
                .mutation(NormalMutation::OxygenIncreaseMutation(1))
                .mutation(NormalMutation::ResourceMutation(Resource::Steel, 2)),
        ),
        75 => Some(
            space_event()
                .cost(23)
                .mutation(NormalMutation::OxygenIncreaseMutation(1))
                .mutation(NormalMutation::TileQueuingMutation(Tile::Ocean))
                .mutation(NormalMutation::ResourceMutation(Resource::Plant, 2)),
        ),
        77 => Some(
            CardBuilder::new()
                .cost(11)
                .tags(vec![Tag::Science, Tag::Space, Tag::Power])
                .mutation(NormalMutation::ProductionMutation(Resource::Energy, 1))
                .mutation(NormalMutation::ResourceMutation(Resource::Titanium, 2)),
        ),
        78 => Some(
            space_event()
                .cost(23)
                .mutation(NormalMutation::TileQueuingMutation(Tile::Ocean))
                .mutation(NormalMutation::TileQueuingMutation(Tile::Ocean)),
        ),
        80 => Some(
            space_event()
                .cost(36)
                .mutation(NormalMutation::TileQueuingMutation(Tile::Ocean))
                .mutation(NormalMutation::TileQueuingMutation(Tile::Ocean))
                .mutation(NormalMutation::TemperatureIncreaseMutation(2)),
        ),
        83 => Some(
            CardBuilder::new()
                .cost(17)
                .tags(vec![Tag::Power, Tag::Space])
                .mutation(NormalMutation::ProductionMutation(Resource::Energy, 3)),
        ),
        87 => Some(
            CardBuilder::new()
                .cost(11)
                .tags(vec![Tag::Plant])
                .requirement(NewRequirement::MinTemperature(-16))
                .mutation(NormalMutation::ProductionMutation(Resource::Plant, 1))
                .mutation(NormalMutation::ResourceMutation(Resource::Plant, 3)),
        ),
        88 => Some(
            CardBuilder::new()
                .cost(6)
                .tags(vec![Tag::Plant])
                .requirement(NewRequirement::MinTemperature(-14))
                .mutation(NormalMutation::ProductionMutation(Resource::Plant, 1))
                .mutation(NormalMutation::ResourceMutation(Resource::Plant, 1)),
        ),
        89 => Some(
            CardBuilder::new()
                .cost(7)
                .tags(vec![Tag::Power, Tag::Builder])
                .mutation(NormalMutation::ProductionMutation(Resource::MegaCredit, -1))
                .mutation(NormalMutation::ProductionMutation(Resource::Energy, 2)),
        ),
        93 => Some(
            CardBuilder::new()
                .cost(10)
                .tags(vec![Tag::Plant])
                .requirement(NewRequirement::MinTemperature(-10))
                .mutation(NormalMutation::ProductionMutation(Resource::Plant, 2))
                .mutation(NormalMutation::ResourceMutation(Resource::Plant, 2)),
        ),
        100 => Some(
            CardBuilder::new()
                .cost(1)
                .tags(vec![Tag::Power, Tag::Builder])
                .mutation(NormalMutation::ProductionMutation(Resource::MegaCredit, -1))
                .mutation(NormalMutation::ProductionMutation(Resource::Energy, 1)),
        ),
        108 => Some(
            martian_city()
                .cost(23)
                .requirement(NewRequirement::MinOxygen(12))
                .mutation(NormalMutation::ProductionMutation(Resource::MegaCredit, 4))
                .mutation(NormalMutation::ResourceMutation(Resource::Plant, 2))
                .victory_points(1),
        ),
        113 => Some(
            CardBuilder::new()
                .cost(11)
                .tags(vec![Tag::Power, Tag::Builder])
                .mutation(NormalMutation::ProductionMutation(Resource::Energy, 1))
                .victory_points(1),
        ),
        114 => Some(
            CardBuilder::new()
                .cost(11)
                .tags(vec![Tag::Science])
                .requirement(NewRequirement::MinOxygen(7))
                .victory_points(2),
        ),
        117 => Some(
            CardBuilder::new()
                .cost(11)
                .tags(vec![Tag::Power, Tag::Builder])
                .mutation(NormalMutation::ProductionMutation(Resource::Energy, 2)),
        ),
        118 => Some(
            CardBuilder::new()
                .cost(16)
                .tags(vec![Tag::Plant])
                .requirement(NewRequirement::MinTemperature(4))
                .mutation(NormalMutation::ProductionMutation(Resource::MegaCredit, 2))
                .mutation(NormalMutation::ProductionMutation(Resource::Plant, 2))
                .mutation(NormalMutation::ResourceMutation(Resource::Plant, 2))
                .victory_points(2),
        ),
        119 => Some(
            CardBuilder::new()
                .cost(2)
                .requirement(NewRequirement::MaxOcean(3))
                .victory_points(1),
        ),
        122 => Some(
            CardBuilder::new()
                .cost(4)
                .tags(vec![Tag::Plant])
                .requirement(NewRequirement::MinOcean(3))
                .mutation(NormalMutation::ProductionMutation(Resource::Plant, 1))
                .mutation(NormalMutation::ResourceMutation(Resource::Plant, -1)),
        ),
        126 => Some(
            CardBuilder::new()
                .cost(11)
                .tags(vec![Tag::Builder])
                .mutation(NormalMutation::ProductionMutation(Resource::Energy, -1))
                .mutation(NormalMutation::ProductionMutation(Resource::Heat, 4)),
        ),
        127 => Some(
            CardBuilder::new()
                .cost(11)
                .event()
                .mutation(NormalMutation::TileQueuingMutation(Tile::Ocean)),
        ),
        132 => Some(
            CardBuilder::new()
                .cost(14)
                .tags(vec![Tag::Science, Tag::Power, Tag::Builder])
                .requirement(NewRequirement::Tag(Tag::Power, 2))
                .mutation(NormalMutation::ProductionMutation(Resource::Energy, 3)),
        ),
        136 => Some(
            CardBuilder::new()
                .cost(4)
                .tags(vec![Tag::Power, Tag::Builder])
                .mutation(NormalMutation::ProductionMutation(Resource::Energy, 1)),
        ),
        143 => Some(
            space_event()
                .cost(36)
                .tags(vec![Tag::Earth])
                .mutation(NormalMutation::TileQueuingMutation(Tile::Ocean))
                .mutation(NormalMutation::CardDrawMutation(2))
                .mutation(NormalMutation::ResourceMutation(Resource::Plant, 5))
                .victory_points(2),
        ),
        145 => Some(
            CardBuilder::new()
                .cost(18)
                .tags(vec![Tag::Power, Tag::Builder])
                .requirement(NewRequirement::Tag(Tag::Science, 2))
                .mutation(NormalMutation::ProductionMutation(Resource::Energy, 3))
                .victory_points(1),
        ),
        146 => Some(
            CardBuilder::new()
                .cost(8)
                .tags(vec![Tag::Plant])
                .requirement(NewRequirement::MinOcean(3))
                .mutation(NormalMutation::ProductionMutation(Resource::Plant, 2))
                .mutation(NormalMutation::ResourceMutation(Resource::Plant, -2)),
        ),
        155 => Some(
            CardBuilder::new()
                .cost(16)
                .tags(vec![Tag::Science, Tag::Microbe])
                .requirement(NewRequirement::MaxTemperature(-14))
                .mutation(NormalMutation::ProductionMutation(Resource::Plant, 2)),
        ),
        158 => Some(
            CardBuilder::new()
                .cost(12)
                .tags(vec![Tag::Microbe, Tag::Builder])
                .mutation(NormalMutation::ProductionMutation(Resource::Energy, 1))
                .mutation(NormalMutation::ProductionMutation(Resource::Steel, 1)),
        ),
        159 => Some(
            CardBuilder::new()
                .cost(7)
                .tags(vec![Tag::Plant])
                .requirement(NewRequirement::MinTemperature(-24))
                .mutation(NormalMutation::ResourceMutation(Resource::Plant, 1)),
        ),
        161 => Some(
            space_event()
                .cost(15)
                .mutation(NormalMutation::TileQueuingMutation(Tile::Ocean))
                .mutation(NormalMutation::CardDrawMutation(1)),
        ),
        162 => Some(
            space_event()
                .cost(7)
                .tags(vec![Tag::Earth])
                .mutation(NormalMutation::ProductionMutation(Resource::Heat, 1))
                .mutation(NormalMutation::ResourceMutation(Resource::Heat, 3)),
        ),
        168 => Some(
            CardBuilder::new()
                .cost(6)
                .tags(vec![Tag::Power, Tag::Builder])
                .requirement(NewRequirement::MinOxygen(7))
                .mutation(NormalMutation::ProductionMutation(Resource::Energy, 1))
                .victory_points(1),
        ),
        169 => Some(
            CardBuilder::new()
                .cost(16)
                .tags(vec![Tag::Plant])
                .requirement(NewRequirement::MinTemperature(-6))
                .mutation(NormalMutation::ProductionMutation(Resource::Plant, 1))
                .mutation(NormalMutation::ProductionMutation(Resource::MegaCredit, 2))
                .mutation(NormalMutation::ResourceMutation(Resource::Plant, 1))
                .victory_points(2),
        ),
        170 => Some(
            space_event()
                .cost(26)
                .mutation(NormalMutation::ProductionMutation(Resource::Heat, 3))
                .mutation(NormalMutation::ProductionMutation(Resource::Plant, 1)),
        ),
        171 => Some(
            CardBuilder::new()
                .cost(5)
                .tags(vec![Tag::Builder])
                .mutation(NormalMutation::ProductionMutation(Resource::Energy, -2))
                .mutation(NormalMutation::ProductionMutation(Resource::Plant, 1))
                .mutation(NormalMutation::TrMutation(1)),
        ),
        176 => Some(
            CardBuilder::new()
                .cost(10)
                .tags(vec![Tag::Plant, Tag::Builder])
                .requirement(NewRequirement::MinTemperature(-20))
                .mutation(NormalMutation::ProductionMutation(Resource::MegaCredit, 1))
                .mutation(NormalMutation::ResourceMutation(Resource::Plant, 2))
                .victory_points(1),
        ),
        179 => Some(
            CardBuilder::new()
                .cost(9)
                .tags(vec![Tag::Builder])
                .mutation(NormalMutation::ProductionMutation(Resource::Energy, -1))
                .mutation(NormalMutation::ProductionMutation(Resource::Plant, 1)),
        ),
        180 => Some(
            CardBuilder::new()
                .cost(6)
                .tags(vec![Tag::Builder])
                .mutation(NormalMutation::ProductionMutation(Resource::Energy, -1))
                .mutation(NormalMutation::ProductionMutation(Resource::Titanium, 1))
                .mutation(NormalMutation::ProductionMutation(Resource::MegaCredit, 1)),
        ),
        181 => Some(
            CardBuilder::new()
                .cost(5)
                .event()
                .requirement(NewRequirement::MinTemperature(2))
                .mutation(NormalMutation::TileQueuingMutation(Tile::Ocean)),
        ),
        190 => Some(
            CardBuilder::new()
                .cost(1)
                .event()
                .mutation(NormalMutation::ResourceMutation(Resource::Heat, -5))
                .mutation(NormalMutation::ResourceMutation(Resource::Plant, 4)),
        ),
        191 => Some(
            CardBuilder::new()
                .cost(8)
                .event()
                .requirement(NewRequirement::MinTemperature(-8))
                .mutation(NormalMutation::TileQueuingMutation(Tile::Ocean)),
        ),
        193 => Some(
            CardBuilder::new()
                .cost(15)
                .tags(vec![Tag::Plant])
                .requirement(NewRequirement::Tag(Tag::Science, 2))
                .mutation(NormalMutation::TileQueuingMutation(Tile::Greenery)),
        ),
        203 => Some(
            CardBuilder::new()
                .cost(35)
                .tags(vec![Tag::Space])
                .mutation(NormalMutation::ProductionMutation(Resource::Heat, 7)),
        ),
        205 => Some(
            CardBuilder::new()
                .cost(8)
                .tags(vec![Tag::Builder])
                .mutation(NormalMutation::ProductionMutation(Resource::Energy, -1))
                .mutation(NormalMutation::TrMutation(2)),
        ),
        _ => None,
    }
}

/// The compendium: every card under its number.
pub fn build_card_compendium() -> (compendium: HashMap<CardId, Card>)
    ensures
        forall|id: CardId| compendium@.contains_key(id) <==> is_card_id(id),
        forall|id: CardId| #[trigger]
            compendium@.contains_key(id) ==> compendium@[id].begins_with_play_of(id),
{
    let card_ids = build_card_id_list();
    let mut compendium: HashMap<CardId, Card> = HashMap::new();
    let mut i: usize = 0;
    while i < card_ids.len()
        invariant
            i <= card_ids@.len(),
            card_ids@ == card_numbers(),
            forall|id: CardId|
                compendium@.contains_key(id) <==> card_ids@.take(i as int).contains(id),
            forall|id: CardId| #[trigger]
                compendium@.contains_key(id) ==> compendium@[id].begins_with_play_of(id),
        decreases card_ids@.len() - i,
    {
        let id = card_ids[i];
        if let Some(builder) = card_builder(id) {
            compendium.insert(id, builder.id(id).build());
        }
        proof {
            let before = card_ids@.take(i as int);
            let after = card_ids@.take(i + 1);
            assert forall|other: CardId| after.contains(other) <==> before.contains(other) || other
                == id by {
                assert(after[i as int] == id);
            }
        }
        i = i + 1;
    }
    assert(card_ids@.take(i as int) == card_ids@);
    compendium
}

} // verus!
