use pascal_marshal::installer::DriverError;
use pascal_marshal::installer::DriverPhase;
use pascal_marshal::InstallerDriver;
use pascal_marshal::PascalTPSExec;
use pascal_marshal::TSetupStep;

#[test]
fn test_driver_end_to_end() {
    let mut driver = InstallerDriver::new();
    assert_eq!(driver.phase(), DriverPhase::Idle);

    driver.load_bytecode(vec![0x01, 0x02, 0x03]).unwrap();
    assert_eq!(driver.phase(), DriverPhase::BytecodeLoaded);

    let compile = driver.compile_request().unwrap();
    assert_eq!(compile.codepage(), 65001);
    assert_eq!(compile.actual_string_size(), 4);
    assert_eq!(compile.into_bytes(), vec![0x01, 0x02, 0x03, 0x00]);

    // the foreign engine answers with a handle
    let handle = PascalTPSExec::from_raw(7);
    driver.accept_context(Some(handle)).unwrap();
    assert_eq!(driver.phase(), DriverPhase::ContextCompiled);

    let request = driver.invoke_request().unwrap();
    assert_eq!(request.context, handle);
    assert_eq!(request.params.len(), 1);
    let step: i32 = (*request.params.get(0).unwrap()).try_into().unwrap();
    assert_eq!(step, 1);
    assert_eq!(*request.params.get(0).unwrap(), TSetupStep::ssInstall);
    assert_eq!(request.proc_name.actual_string_size(), 15);
    assert_eq!(
        request.proc_name.into_bytes(),
        "CURSTEPCHANGED\0".as_bytes().to_vec()
    );

    driver.note_invoked().unwrap();
    assert_eq!(driver.phase(), DriverPhase::ProcedureInvoked);
    driver.finish().unwrap();
    assert_eq!(driver.phase(), DriverPhase::Done);
}

#[test]
fn test_driver_compile_failure_blocks_invoke() {
    let mut driver = InstallerDriver::new();
    driver.load_bytecode(vec![0x01, 0x02, 0x03]).unwrap();
    let _ = driver.compile_request().unwrap();

    // the foreign engine produced no handle: fatal, and no invoke request
    // can be obtained afterwards
    assert_eq!(
        driver.accept_context(None),
        Err(DriverError::CompileFailed)
    );
    assert_eq!(driver.phase(), DriverPhase::CompileFailed);
    assert!(matches!(
        driver.invoke_request(),
        Err(DriverError::CompileFailed)
    ));
    assert_eq!(driver.note_invoked(), Err(DriverError::OutOfPhase));
}

#[test]
fn test_driver_rejects_out_of_phase_calls() {
    let mut driver = InstallerDriver::new();
    assert!(matches!(driver.compile_request(), Err(DriverError::OutOfPhase)));
    assert!(matches!(driver.invoke_request(), Err(DriverError::OutOfPhase)));
    assert_eq!(driver.note_invoked(), Err(DriverError::OutOfPhase));
    assert_eq!(driver.finish(), Err(DriverError::OutOfPhase));

    driver.load_bytecode(vec![0xff]).unwrap();
    assert_eq!(
        driver.load_bytecode(vec![0xee]),
        Err(DriverError::OutOfPhase)
    );
}

#[test]
fn test_driver_error_messages() {
    assert_eq!(
        DriverError::OutOfPhase.describe(),
        "operation out of phase for this run"
    );
    assert_eq!(
        DriverError::CompileFailed.describe(),
        "foreign compile produced no execution context"
    );
}
