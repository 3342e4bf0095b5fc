use radar_core::cal::config::ObjectType;
use radar_core::calculate::detect::{choose_car_category, map_detected_cars, ArmorBox, CarChoice, MappedCar, MappingResult};

fn armor(category: ObjectType, confidence: i64) -> ArmorBox {
    ArmorBox { category, confidence }
}

#[test]
fn car_without_plates_stays_a_car() {
    let choice = choose_car_category(&vec![], &vec![]);
    assert_eq!(choice, CarChoice { category: ObjectType::Car, confidence: 0 });
}

#[test]
fn plates_outside_the_car_are_ignored() {
    let armors = vec![armor(ObjectType::Red1, 90), armor(ObjectType::Blue2, 80)];
    let choice = choose_car_category(&vec![false, false], &armors);
    assert_eq!(choice, CarChoice { category: ObjectType::Car, confidence: 0 });
}

#[test]
fn most_confident_plate_names_the_car() {
    let armors = vec![armor(ObjectType::Red1, 50), armor(ObjectType::Red2, 90), armor(ObjectType::Red3, 70)];
    let choice = choose_car_category(&vec![true, true, true], &armors);
    assert_eq!(choice, CarChoice { category: ObjectType::Red2, confidence: 90 });
}

#[test]
fn last_of_equally_confident_plates_wins() {
    let armors = vec![armor(ObjectType::Blue1, 60), armor(ObjectType::Blue4, 60), armor(ObjectType::Red5, 60)];
    let choice = choose_car_category(&vec![true, true, false], &armors);
    assert_eq!(choice, CarChoice { category: ObjectType::Blue4, confidence: 60 });
}

#[test]
fn negative_scores_never_name_a_car_but_zero_does() {
    let armors = vec![armor(ObjectType::Red1, -5)];
    assert_eq!(choose_car_category(&vec![true], &armors), CarChoice { category: ObjectType::Car, confidence: 0 });
    let armors = vec![armor(ObjectType::Red1, -5), armor(ObjectType::Blue3, 0)];
    assert_eq!(choose_car_category(&vec![true, true], &armors), CarChoice { category: ObjectType::Blue3, confidence: 0 });
}

#[test]
fn empty_mapping() {
    let m = MappingResult::new();
    assert!(m.car_map.is_empty());
    let m = map_detected_cars(&vec![], &vec![armor(ObjectType::Red1, 3)]);
    assert!(m.car_map.is_empty());
}

#[test]
fn mapping_keys_cars_by_category_and_keeps_the_last() {
    let armors = vec![armor(ObjectType::Red1, 80), armor(ObjectType::Blue2, 70), armor(ObjectType::Red1, 40)];
    let inside = vec![
        vec![true, false, false],
        vec![false, true, false],
        vec![false, false, true],
        vec![false, false, false],
    ];
    let m = map_detected_cars(&inside, &armors);
    assert_eq!(m.car_map.len(), 3);
    assert_eq!(
        m.car_map.get(&ObjectType::Red1.code()),
        Some(&MappedCar { car_index: 2, category: ObjectType::Red1, confidence: 40 })
    );
    assert_eq!(
        m.car_map.get(&ObjectType::Blue2.code()),
        Some(&MappedCar { car_index: 1, category: ObjectType::Blue2, confidence: 70 })
    );
    assert_eq!(
        m.car_map.get(&ObjectType::Car.code()),
        Some(&MappedCar { car_index: 3, category: ObjectType::Car, confidence: 0 })
    );
}
