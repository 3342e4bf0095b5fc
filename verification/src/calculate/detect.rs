use vstd::prelude::*;
use std::collections::HashMap;
use crate::cal::config::ObjectType;

verus! {

broadcast use vstd::std_specs::hash::group_hash_axioms;

/// An armour plate seen in the image: its category and the detector's score
/// for it. The score is held as an integer key that orders scores as the
/// detector's values are ordered; a score of zero has key 0.
#[derive(Debug, PartialEq, Eq, Structural, Copy, Clone)]
pub struct ArmorBox {
    pub category: ObjectType,
    pub confidence: i64,
}

/// The category a car box is given, and the score of the plate that gave it.
#[derive(Debug, PartialEq, Eq, Structural, Copy, Clone)]
pub struct CarChoice {
    pub category: ObjectType,
    pub confidence: i64,
}

/// What a car box is before any plate is looked at: a plain car, score zero.
pub open spec fn unnamed_car() -> CarChoice {
    CarChoice { category: ObjectType::Car, confidence: 0 }
}

/// The choice after the first `n` plates: each plate inside the car whose
/// score is not below the current one takes over.
pub open spec fn choice_prefix(inside: Seq<bool>, armors: Seq<ArmorBox>, n: int) -> CarChoice
    decreases n,
{
    if n <= 0 {
        unnamed_car()
    } else {
        let prev = choice_prefix(inside, armors, n - 1);
        if inside[n - 1] && !(armors[n - 1].confidence < prev.confidence) {
            CarChoice { category: armors[n - 1].category, confidence: armors[n - 1].confidence }
        } else {
            prev
        }
    }
}

/// The choice once every plate has been looked at.
pub open spec fn car_choice(inside: Seq<bool>, armors: Seq<ArmorBox>) -> CarChoice {
    choice_prefix(inside, armors, armors.len() as int)
}

/// What it means for a car box to be named `category` with score
/// `confidence` by the plates inside it (`inside[j]` says whether plate `j`
/// lies inside): the score is at least zero and at least that of every plate
/// inside; with no plate inside scoring at least zero the car is a plain car
/// with score zero; otherwise some plate inside has exactly this score and
/// category, and every later plate inside scores strictly less.
pub open spec fn named_by_most_confident_plate(
    inside: Seq<bool>,
    armors: Seq<ArmorBox>,
    category: ObjectType,
    confidence: i64,
) -> bool {
    let n = armors.len() as int;
    &&& confidence >= 0
    &&& forall|j: int| 0 <= j < n && inside[j] ==> armors[j].confidence <= confidence
    &&& (forall|j: int| 0 <= j < n ==> !(inside[j] && armors[j].confidence >= 0)) ==> (category
        == ObjectType::Car && confidence == 0)
    &&& (exists|j: int| 0 <= j < n && inside[j] && armors[j].confidence >= 0) ==> exists|k: int|
        #![trigger armors[k]]
        0 <= k < n && inside[k] && armors[k].confidence == confidence && armors[k].category
            == category && forall|j: int| k < j < n && inside[j] ==> armors[j].confidence < confidence
}

/// Gives a car box the category of the armour plates inside it: `inside[j]`
/// says whether plate `j` lies inside the car.
pub fn choose_car_category(inside: &Vec<bool>, armors: &Vec<ArmorBox>) -> (res: CarChoice)
    requires
        inside.len() == armors.len(),
    ensures
        res == car_choice(inside@, armors@),
        named_by_most_confident_plate(inside@, armors@, res.category, res.confidence),
{
    proof {
        lemma_car_takes_most_confident_plate(inside@, armors@);
    }
    let mut best = CarChoice { category: ObjectType::Car, confidence: 0 };
    let mut j: usize = 0;
    while j < armors.len()
        invariant
            j <= armors.len(),
            inside.len() == armors.len(),
            best == choice_prefix(inside@, armors@, j as int),
        decreases armors.len() - j,
    {
        if inside[j] && !(armors[j].confidence < best.confidence) {
            best = CarChoice { category: armors[j].category, confidence: armors[j].confidence };
        }
        j = j + 1;
    }
    best
}

proof fn lemma_choice_prefix(inside: Seq<bool>, armors: Seq<ArmorBox>, n: int)
    requires
        inside.len() == armors.len(),
        0 <= n <= armors.len(),
    ensures
        ({
            let c = choice_prefix(inside, armors, n);
            &&& c.confidence >= 0
            &&& forall|j: int| 0 <= j < n && inside[j] ==> armors[j].confidence <= c.confidence
            &&& (forall|j: int| 0 <= j < n ==> !(inside[j] && armors[j].confidence >= 0)) ==> c == unnamed_car()
            &&& (exists|j: int| 0 <= j < n && inside[j] && armors[j].confidence >= 0) ==> exists|k: int|
                #![trigger armors[k]]
                0 <= k < n && inside[k] && armors[k].confidence == c.confidence
                    && armors[k].category == c.category && forall|j: int|
                    k < j < n && inside[j] ==> armors[j].confidence < c.confidence
        }),
    decreases n,
{
    if n > 0 {
        lemma_choice_prefix(inside, armors, n - 1);
        let prev = choice_prefix(inside, armors, n - 1);
        let c = choice_prefix(inside, armors, n);
        if inside[n - 1] && !(armors[n - 1].confidence < prev.confidence) {
            assert(armors[n - 1].confidence == c.confidence);
        } else {
            if exists|j: int| 0 <= j < n && inside[j] && armors[j].confidence >= 0 {
                let j = choose|j: int| 0 <= j < n && inside[j] && armors[j].confidence >= 0;
                if j == n - 1 {
                    if forall|i: int| 0 <= i < n - 1 ==> !(inside[i] && armors[i].confidence >= 0) {
                        assert(prev == unnamed_car());
                        assert(false);
                    }
                }
                assert(exists|i: int| 0 <= i < n - 1 && inside[i] && armors[i].confidence >= 0);
            }
        }
    }
}

/// Law: a car box takes the category of the most confident armour plate
/// inside it, and of the last one among equally confident plates; when no
/// plate inside it scores at least zero it stays a plain car with score zero.
pub proof fn lemma_car_takes_most_confident_plate(inside: Seq<bool>, armors: Seq<ArmorBox>)
    requires
        inside.len() == armors.len(),
    ensures
        named_by_most_confident_plate(
            inside,
            armors,
            car_choice(inside, armors).category,
            car_choice(inside, armors).confidence,
        ),
        ({
            let c = car_choice(inside, armors);
            let n = armors.len() as int;
            &&& c.confidence >= 0
            &&& forall|j: int| 0 <= j < n && inside[j] ==> armors[j].confidence <= c.confidence
            &&& (forall|j: int| 0 <= j < n ==> !(inside[j] && armors[j].confidence >= 0)) ==> c == unnamed_car()
            &&& (exists|j: int| 0 <= j < n && inside[j] && armors[j].confidence >= 0) ==> exists|k: int|
                #![trigger armors[k]]
                0 <= k < n && inside[k] && armors[k].confidence == c.confidence
                    && armors[k].category == c.category && forall|j: int|
                    k < j < n && inside[j] ==> armors[j].confidence < c.confidence
        }),
{
    lemma_choice_prefix(inside, armors, armors.len() as int);
}


/// A car box in the mapping result: which car box it is (its index among the
/// car boxes), and the category and score it was given.
#[derive(Debug, PartialEq, Eq, Structural, Copy, Clone)]
pub struct MappedCar {
    pub car_index: usize,
    pub category: ObjectType,
    pub confidence: i64,
}

/// The cars found in one frame, keyed by the code of their category.
pub struct MappingResult {
    pub car_map: HashMap<u64, MappedCar>,
}

impl View for MappingResult {
    type V = Map<u64, MappedCar>;

    open spec fn view(&self) -> Map<u64, MappedCar> {
        self.car_map@
    }
}

impl MappingResult {
    pub fn new() -> (res: Self)
        ensures
            res@ == Map::<u64, MappedCar>::empty(),
    {
        MappingResult { car_map: HashMap::new() }
    }
}

/// The entry that car box `c` makes.
pub open spec fn mapped_car(inside: Seq<Vec<bool>>, armors: Seq<ArmorBox>, c: int) -> MappedCar {
    let choice = car_choice(inside[c]@, armors);
    MappedCar { car_index: c as usize, category: choice.category, confidence: choice.confidence }
}

/// The map after the first `n` car boxes: each car box is entered under the
/// code of its category, replacing an earlier car of the same category.
pub open spec fn mapping_prefix(inside: Seq<Vec<bool>>, armors: Seq<ArmorBox>, n: int) -> Map<u64, MappedCar>
    decreases n,
{
    if n <= 0 {
        Map::empty()
    } else {
        let entry = mapped_car(inside, armors, n - 1);
        mapping_prefix(inside, armors, n - 1).insert(entry.category.spec_code(), entry)
    }
}

/// The cars of one frame: `inside[c][j]` says whether armour plate `j` lies
/// inside car box `c`. Each car box is named by [`choose_car_category`] and
/// entered under the code of its category; a later car box of the same
/// category replaces an earlier one.
pub fn map_detected_cars(inside: &Vec<Vec<bool>>, armors: &Vec<ArmorBox>) -> (res: MappingResult)
    requires
        forall|c: int| 0 <= c < inside.len() ==> #[trigger] inside[c]@.len() == armors.len(),
    ensures
        res@ == mapping_prefix(inside@, armors@, inside.len() as int),
        forall|c: int|
            0 <= c < inside.len() ==> res@.contains_key(
                #[trigger] car_choice(inside[c]@, armors@).category.spec_code(),
            ),
        forall|k: u64| #[trigger]
            res@.contains_key(k) ==> {
                let e = res@[k];
                &&& 0 <= e.car_index < inside.len()
                &&& k == e.category.spec_code()
                &&& e.category == car_choice(inside[e.car_index as int]@, armors@).category
                &&& e.confidence == car_choice(inside[e.car_index as int]@, armors@).confidence
                &&& named_by_most_confident_plate(inside[e.car_index as int]@, armors@, e.category, e.confidence)
                &&& forall|c: int|
                    e.car_index < c < inside.len() ==> car_choice(inside[c]@, armors@).category.spec_code() != k
            },
{
    let car_count: usize = inside.len();
    proof {
        lemma_cars_keyed_by_most_confident_plate(inside@, armors@);
    }
    let mut result = MappingResult::new();
    let mut c: usize = 0;
    while c < inside.len()
        invariant
            c <= inside.len(),
            forall|i: int| 0 <= i < inside.len() ==> #[trigger] inside[i]@.len() == armors.len(),
            result@ == mapping_prefix(inside@, armors@, c as int),
        decreases inside.len() - c,
    {
        let choice = choose_car_category(&inside[c], armors);
        let entry = MappedCar { car_index: c, category: choice.category, confidence: choice.confidence };
        result.car_map.insert(choice.category.code(), entry);
        c = c + 1;
    }
    result
}

proof fn lemma_mapping_prefix(inside: Seq<Vec<bool>>, armors: Seq<ArmorBox>, n: int)
    requires
        0 <= n <= inside.len(),
        inside.len() <= usize::MAX,
    ensures
        forall|k: u64| #[trigger] mapping_prefix(inside, armors, n).contains_key(k) <==> exists|c: int|
            0 <= c < n && mapped_car(inside, armors, c).category.spec_code() == k,
        forall|k: u64| #[trigger] mapping_prefix(inside, armors, n).contains_key(k) ==> {
            let e = mapping_prefix(inside, armors, n)[k];
            &&& 0 <= e.car_index < n
            &&& e == mapped_car(inside, armors, e.car_index as int)
            &&& e.category.spec_code() == k
            &&& forall|c: int| e.car_index < c < n ==> mapped_car(inside, armors, c).category.spec_code() != k
        },
    decreases n,
{
    if n > 0 {
        lemma_mapping_prefix(inside, armors, n - 1);
        let entry = mapped_car(inside, armors, n - 1);
        let m = mapping_prefix(inside, armors, n);
        assert forall|k: u64| #[trigger] m.contains_key(k) implies exists|c: int|
            0 <= c < n && mapped_car(inside, armors, c).category.spec_code() == k by {
            if k != entry.category.spec_code() {
                let c = choose|c: int| 0 <= c < n - 1 && mapped_car(inside, armors, c).category.spec_code() == k;
                assert(0 <= c < n && mapped_car(inside, armors, c).category.spec_code() == k);
            }
        }
        assert forall|k: u64| (exists|c: int| 0 <= c < n && mapped_car(inside, armors, c).category.spec_code() == k)
            implies #[trigger] m.contains_key(k) by {
            let c = choose|c: int| 0 <= c < n && mapped_car(inside, armors, c).category.spec_code() == k;
            if c < n - 1 {
                assert(mapping_prefix(inside, armors, n - 1).contains_key(k));
            }
        }
        assert forall|k: u64| #[trigger] m.contains_key(k) implies {
            let e = m[k];
            &&& 0 <= e.car_index < n
            &&& e == mapped_car(inside, armors, e.car_index as int)
            &&& e.category.spec_code() == k
            &&& forall|c: int| e.car_index < c < n ==> mapped_car(inside, armors, c).category.spec_code() != k
        } by {
            if k != entry.category.spec_code() {
                let prev = mapping_prefix(inside, armors, n - 1);
                assert(prev.contains_key(k));
                assert(m[k] == prev[k]);
            } else {
                assert(m[k] == entry);
                assert(entry.car_index as int == n - 1);
            }
        }
    }
}

/// Law: the mapping holds exactly one entry for each category that some car
/// box was given, and that entry is the last car box given that category.
pub proof fn lemma_mapping_keeps_last_car_of_each_category(inside: Seq<Vec<bool>>, armors: Seq<ArmorBox>)
    requires
        inside.len() <= usize::MAX,
    ensures
        ({
            let m = mapping_prefix(inside, armors, inside.len() as int);
            let n = inside.len() as int;
            &&& forall|k: u64| #[trigger] m.contains_key(k) <==> exists|c: int|
                0 <= c < n && mapped_car(inside, armors, c).category.spec_code() == k
            &&& forall|k: u64| #[trigger] m.contains_key(k) ==> {
                let e = m[k];
                &&& 0 <= e.car_index < n
                &&& e == mapped_car(inside, armors, e.car_index as int)
                &&& e.category.spec_code() == k
                &&& forall|c: int| e.car_index < c < n ==> mapped_car(inside, armors, c).category.spec_code() != k
            }
        }),
{
    lemma_mapping_prefix(inside, armors, inside.len() as int);
}


/// Law: every car box of the frame is filed, under the code of the category
/// its most confident plate gives it; each entry of the mapping is a car box
/// carrying exactly that category and score, and no later car box was given
/// the same category.
pub proof fn lemma_cars_keyed_by_most_confident_plate(inside: Seq<Vec<bool>>, armors: Seq<ArmorBox>)
    requires
        inside.len() <= usize::MAX,
        forall|c: int| 0 <= c < inside.len() ==> #[trigger] inside[c]@.len() == armors.len(),
    ensures
        ({
            let m = mapping_prefix(inside, armors, inside.len() as int);
            let n = inside.len() as int;
            &&& forall|c: int|
                0 <= c < n ==> m.contains_key(#[trigger] car_choice(inside[c]@, armors).category.spec_code())
            &&& forall|k: u64| #[trigger]
                m.contains_key(k) ==> {
                    let e = m[k];
                    &&& 0 <= e.car_index < n
                    &&& k == e.category.spec_code()
                    &&& e.category == car_choice(inside[e.car_index as int]@, armors).category
                    &&& e.confidence == car_choice(inside[e.car_index as int]@, armors).confidence
                    &&& named_by_most_confident_plate(inside[e.car_index as int]@, armors, e.category, e.confidence)
                    &&& forall|c: int|
                        e.car_index < c < n ==> car_choice(inside[c]@, armors).category.spec_code() != k
                }
        }),
{
    lemma_mapping_prefix(inside, armors, inside.len() as int);
    let m = mapping_prefix(inside, armors, inside.len() as int);
    assert forall|c: int| 0 <= c < inside.len() implies m.contains_key(
        #[trigger] car_choice(inside[c]@, armors).category.spec_code(),
    ) by {
        assert(mapped_car(inside, armors, c).category.spec_code() == car_choice(inside[c]@, armors).category.spec_code());
    }
    assert forall|k: u64| #[trigger] m.contains_key(k) implies {
        let e = m[k];
        &&& 0 <= e.car_index < inside.len()
        &&& k == e.category.spec_code()
        &&& e.category == car_choice(inside[e.car_index as int]@, armors).category
        &&& e.confidence == car_choice(inside[e.car_index as int]@, armors).confidence
        &&& named_by_most_confident_plate(inside[e.car_index as int]@, armors, e.category, e.confidence)
        &&& forall|c: int|
            e.car_index < c < inside.len() ==> car_choice(inside[c]@, armors).category.spec_code() != k
    } by {
        let e = m[k];
        lemma_car_takes_most_confident_plate(inside[e.car_index as int]@, armors);
        assert forall|c: int| e.car_index < c < inside.len() implies car_choice(inside[c]@, armors).category.spec_code() != k by {
            assert(mapped_car(inside, armors, c).category.spec_code() != k);
        }
    }
}

} // verus!
