use injector::protocol::{
    next_action, on_attach, on_locate, on_redirect, on_resume, on_write, Action, Phase,
};
use injector::region::{Perms, Region};
use injector::InjectorError;

fn rx_private(start: u64, end: u64) -> Region {
    Region {
        start,
        end,
        perms: Perms { readable: true, writable: false, executable: true, private: true },
    }
}

#[test]
fn successful_run_visits_every_operation_in_order() {
    let region = rx_private(0x1000, 0x1040);
    let mut phase = Phase::Created;
    let mut seen: Vec<Action> = Vec::new();
    loop {
        let action = next_action(&phase);
        seen.push(action);
        match action {
            Action::DoAttach => phase = on_attach(Ok(())),
            Action::DoLocate => phase = on_locate(Ok(Some(region))),
            Action::DoWrite { base } => phase = on_write(base, Ok(())),
            Action::DoRedirect { base } => phase = on_redirect(base, Ok(())),
            Action::DoResume => phase = on_resume(Ok(())),
            Action::Halt => break,
        }
    }
    assert_eq!(phase, Phase::Completed);
    assert_eq!(
        seen,
        vec![
            Action::DoAttach,
            Action::DoLocate,
            Action::DoWrite { base: 0x1000 },
            Action::DoRedirect { base: 0x1000 },
            Action::DoResume,
            Action::Halt,
        ]
    );
}

#[test]
fn no_eligible_region_halts_before_any_write_or_redirect() {
    let mut phase = Phase::Created;
    let mut writes = 0;
    let mut redirects = 0;
    loop {
        match next_action(&phase) {
            Action::DoAttach => phase = on_attach(Ok(())),
            Action::DoLocate => phase = on_locate(Ok(None)),
            Action::DoWrite { base } => {
                writes += 1;
                phase = on_write(base, Ok(()));
            }
            Action::DoRedirect { base } => {
                redirects += 1;
                phase = on_redirect(base, Ok(()));
            }
            Action::DoResume => phase = on_resume(Ok(())),
            Action::Halt => break,
        }
    }
    assert_eq!(phase, Phase::Done);
    assert_eq!(writes, 0);
    assert_eq!(redirects, 0);
}

#[test]
fn denied_attach_halts_before_any_other_operation() {
    let denied = InjectorError::CanNotAttach(13);
    let mut phase = Phase::Created;
    let mut later_operations = 0;
    loop {
        match next_action(&phase) {
            Action::DoAttach => phase = on_attach(Err(denied)),
            Action::Halt => break,
            Action::DoLocate | Action::DoResume => later_operations += 1,
            Action::DoWrite { .. } | Action::DoRedirect { .. } => later_operations += 1,
        }
    }
    assert_eq!(phase, Phase::Failed { error: denied });
    assert_eq!(later_operations, 0);
}

#[test]
fn failure_phase_keeps_the_reported_error() {
    let e = InjectorError::CanNotGetMemoryMap(2);
    assert_eq!(on_locate(Err(e)), Phase::Failed { error: e });
    assert_eq!(next_action(&Phase::Failed { error: e }), Action::Halt);
}

#[test]
fn end_to_end_scenario_one_region_sixteen_bytes() {
    let region = rx_private(0x1000, 0x1040);
    let payload: Vec<u8> = (0u8..16u8).collect();

    let found = injector::region::select_destination(&vec![region], payload.len());
    assert_eq!(found, Some(region));

    let base = found.unwrap().start;
    let plan = injector::plan::payload_write_plan(&payload, base, 0);
    assert_eq!(plan.len(), 2);
    assert_eq!(plan[0].addr, 0x1000);
    assert_eq!(plan[1].addr, 0x1008);

    let mut phase = on_attach(Ok(()));
    phase = on_locate(Ok(Some(region)));
    assert_eq!(phase, Phase::Located { base: 0x1000 });
    phase = on_write(base, Ok(()));
    phase = on_redirect(base, Ok(()));
    phase = on_resume(Ok(()));
    assert_eq!(phase, Phase::Completed);
}

#[test]
fn end_to_end_scenario_payload_larger_than_the_only_region() {
    let region = rx_private(0x1000, 0x1040);
    let payload: Vec<u8> = vec![0x90; 100];

    let found = injector::region::select_destination(&vec![region], payload.len());
    assert_eq!(found, None);

    let mut phase = on_attach(Ok(()));
    phase = on_locate(Ok(None));
    assert_eq!(phase, Phase::Done);
    assert_eq!(next_action(&phase), Action::Halt);
}
