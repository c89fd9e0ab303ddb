use racing_physics::environment::CactusType;

#[test]
fn each_kind_of_cactus_has_its_own_model() {
    assert_eq!(CactusType::Small.model_file(), "cactus-small.obj");
    assert_eq!(CactusType::Large.model_file(), "cactus-large.obj");
    assert_ne!(CactusType::Small, CactusType::Large);
}
