use pascal_marshal::TSetupStep;

#[test]
fn test_try_from_i32() {
    assert_eq!(TSetupStep::ssPreInstall, TSetupStep::try_from(0).unwrap());
    assert_eq!(TSetupStep::ssInstall, TSetupStep::try_from(1).unwrap());
    assert_eq!(TSetupStep::ssPostInstall, TSetupStep::try_from(2).unwrap());
    assert_eq!(TSetupStep::ssDone, TSetupStep::try_from(3).unwrap());
}

#[test]
fn test_try_into_i32() {
    assert_eq!(0, TSetupStep::ssPreInstall.try_into().unwrap());
    assert_eq!(1, TSetupStep::ssInstall.try_into().unwrap());
    assert_eq!(2, TSetupStep::ssPostInstall.try_into().unwrap());
    assert_eq!(3, TSetupStep::ssDone.try_into().unwrap());
}

#[test]
fn test_try_from_rejects_other_codes() {
    assert_eq!(TSetupStep::try_from(-1), Err(()));
    assert_eq!(TSetupStep::try_from(4), Err(()));
    assert_eq!(TSetupStep::try_from(i32::MIN), Err(()));
    assert_eq!(TSetupStep::try_from(i32::MAX), Err(()));
}

#[test]
fn test_step_codes_round_trip() {
    for code in 0..4 {
        let step = TSetupStep::try_from(code).unwrap();
        let back: i32 = step.try_into().unwrap();
        assert_eq!(back, code);
    }
}
