use devexec::finalize::{
    begin, exec_path, image_name, Action, Event, Finalization, Outcome, Severity,
    SubprocessRequest, WaitMode, EXEC_FD, IMAGE_FLAGS, IMAGE_SIZE_HINT, IMAGE_WRITE_OFFSET,
};
use devexec::handle::{ImageHandle, RequestHandle};
use devexec::inject::{kmod_devexec_init, Installation, HOOK_SUCCESS};

const IMAGE: ImageHandle = ImageHandle { raw: 0xffff_8000 };

fn all_events() -> Vec<Event> {
    vec![
        Event::ImageCreated { raw: 0x5000 },
        Event::ImageCreated {
            raw: (-12isize) as usize,
        },
        Event::ImageWritten { count: 4 },
        Event::ImageWritten { count: -5 },
        Event::LaunchPrepared { raw: 0x9000 },
        Event::LaunchPrepared { raw: 0 },
        Event::HelperExited { status: 0 },
        Event::ImageReleased,
    ]
}

#[test]
fn protocol_constants() {
    assert_eq!(EXEC_FD, 3);
    assert_eq!(IMAGE_SIZE_HINT, 0);
    assert_eq!(IMAGE_FLAGS, 0);
    assert_eq!(IMAGE_WRITE_OFFSET, 0);
    assert_eq!(image_name(), "kmod_devexec");
    assert_eq!(exec_path(), "/proc/self/fd/3");
    assert_eq!(HOOK_SUCCESS, 0);
}

#[test]
fn exec_path_names_the_injected_descriptor() {
    assert_eq!(exec_path(), format!("/proc/self/fd/{}", EXEC_FD));
}

#[test]
fn request_carries_path_one_argument_and_no_environment() {
    let request = SubprocessRequest { image: IMAGE };
    assert_eq!(request.program_path(), "/proc/self/fd/3");
    assert_eq!(request.argument_vector(), vec!["/proc/self/fd/3"]);
    assert_eq!(request.environment(), Vec::<&str>::new());
    assert_eq!(request.context(), 0xffff_8000);
}

#[test]
fn begin_with_empty_payload_is_done() {
    let (state, action) = begin(Vec::new());
    assert_eq!(
        state,
        Finalization::Done {
            outcome: Outcome::EmptyPayload
        }
    );
    assert_eq!(
        action,
        Action::Finish {
            outcome: Outcome::EmptyPayload
        }
    );
    assert_eq!(state.outcome(), Some(Outcome::EmptyPayload));
}

#[test]
fn begin_with_one_byte_asks_for_an_image() {
    let (state, action) = begin(vec![0]);
    assert_eq!(state, Finalization::AwaitingImage { payload: vec![0] });
    assert_eq!(
        action,
        Action::CreateImage {
            size_hint: 0,
            flags: 0
        }
    );
    assert_eq!(state.outcome(), None);
}

#[test]
fn created_image_gets_the_whole_payload_at_offset_zero() {
    let state = Finalization::AwaitingImage {
        payload: b"abc".to_vec(),
    };
    let (state, action) = state.step(Event::ImageCreated { raw: 0xffff_8000 });
    assert_eq!(state, Finalization::AwaitingWrite { image: IMAGE });
    assert_eq!(
        action,
        Action::WriteImage {
            image: IMAGE,
            bytes: b"abc".to_vec(),
            offset: 0
        }
    );
}

#[test]
fn failed_creation_finishes_with_the_decoded_code() {
    let state = Finalization::AwaitingImage {
        payload: b"abc".to_vec(),
    };
    let (state, action) = state.step(Event::ImageCreated {
        raw: (-12isize) as usize,
    });
    let outcome = Outcome::ImageCreateFailed { code: -12 };
    assert_eq!(state, Finalization::Done { outcome });
    assert_eq!(action, Action::Finish { outcome });
}

#[test]
fn written_image_is_prepared_for_launch() {
    let state = Finalization::AwaitingWrite { image: IMAGE };
    let (state, action) = state.step(Event::ImageWritten { count: 3 });
    assert_eq!(state, Finalization::AwaitingRequest { image: IMAGE });
    assert_eq!(
        action,
        Action::PrepareLaunch {
            request: SubprocessRequest { image: IMAGE },
            written: 3
        }
    );
}

#[test]
fn a_write_of_zero_bytes_counts_as_written() {
    let state = Finalization::AwaitingWrite { image: IMAGE };
    let (state, action) = state.step(Event::ImageWritten { count: 0 });
    assert_eq!(state, Finalization::AwaitingRequest { image: IMAGE });
    assert_eq!(
        action,
        Action::PrepareLaunch {
            request: SubprocessRequest { image: IMAGE },
            written: 0
        }
    );
}

#[test]
fn failed_write_asks_for_release_first() {
    let state = Finalization::AwaitingWrite { image: IMAGE };
    let (state, action) = state.step(Event::ImageWritten { count: -28 });
    let outcome = Outcome::ImageWriteFailed { code: -28 };
    assert_eq!(
        state,
        Finalization::Releasing {
            image: IMAGE,
            outcome
        }
    );
    assert_eq!(action, Action::ReleaseImage { image: IMAGE });
    assert_eq!(state.outcome(), None);
    let (state, action) = state.step(Event::ImageReleased);
    assert_eq!(state, Finalization::Done { outcome });
    assert_eq!(action, Action::Finish { outcome });
}

#[test]
fn prepared_launch_is_executed_waiting_for_the_process() {
    let state = Finalization::AwaitingRequest { image: IMAGE };
    let (state, action) = state.step(Event::LaunchPrepared { raw: 0x9000 });
    assert_eq!(state, Finalization::AwaitingExit { image: IMAGE });
    assert_eq!(
        action,
        Action::Execute {
            prepared: RequestHandle { raw: 0x9000 },
            wait: WaitMode::Process
        }
    );
}

#[test]
fn failed_preparation_asks_for_release_first() {
    let state = Finalization::AwaitingRequest { image: IMAGE };
    let (state, action) = state.step(Event::LaunchPrepared { raw: 0 });
    let outcome = Outcome::LaunchPrepFailed;
    assert_eq!(
        state,
        Finalization::Releasing {
            image: IMAGE,
            outcome
        }
    );
    assert_eq!(action, Action::ReleaseImage { image: IMAGE });
    let (state, action) = state.step(Event::ImageReleased);
    assert_eq!(state, Finalization::Done { outcome });
    assert_eq!(action, Action::Finish { outcome });
}

#[test]
fn helper_status_is_reported_and_not_interpreted() {
    for status in [0, 1, -2, 256, i32::MIN, i32::MAX] {
        let state = Finalization::AwaitingExit { image: IMAGE };
        let (state, action) = state.step(Event::HelperExited { status });
        let outcome = Outcome::Executed { status };
        assert_eq!(state, Finalization::Done { outcome });
        assert_eq!(action, Action::Finish { outcome });
        assert_eq!(outcome.severity(), Severity::Info);
    }
}

#[test]
fn severities() {
    assert_eq!(Outcome::EmptyPayload.severity(), Severity::Warning);
    assert_eq!(
        Outcome::ImageCreateFailed { code: -12 }.severity(),
        Severity::Error
    );
    assert_eq!(
        Outcome::ImageWriteFailed { code: -5 }.severity(),
        Severity::Error
    );
    assert_eq!(Outcome::LaunchPrepFailed.severity(), Severity::Error);
    assert_eq!(Outcome::Executed { status: 0 }.severity(), Severity::Info);
}

#[test]
fn events_that_answer_no_call_are_ignored() {
    // Each state with the positions in `all_events()` of the events that
    // answer the call it waits on.
    let states: Vec<(Finalization, Vec<usize>)> = vec![
        (
            Finalization::AwaitingImage {
                payload: b"x".to_vec(),
            },
            vec![0, 1],
        ),
        (Finalization::AwaitingWrite { image: IMAGE }, vec![2, 3]),
        (Finalization::AwaitingRequest { image: IMAGE }, vec![4, 5]),
        (Finalization::AwaitingExit { image: IMAGE }, vec![6]),
        (
            Finalization::Releasing {
                image: IMAGE,
                outcome: Outcome::LaunchPrepFailed,
            },
            vec![7],
        ),
    ];
    let events = all_events();
    let mut ignored = 0;
    for (state, answers) in states {
        for (i, event) in events.iter().enumerate() {
            let (next, action) = state.clone().step(*event);
            if answers.contains(&i) {
                assert_ne!(next, state);
                assert_ne!(action, Action::Nothing);
            } else {
                assert_eq!(next, state);
                assert_eq!(action, Action::Nothing);
                ignored += 1;
            }
        }
    }
    assert_eq!(ignored, 5 * 8 - 8);
}

#[test]
fn a_finished_machine_ignores_every_event() {
    let outcomes = vec![
        Outcome::EmptyPayload,
        Outcome::ImageCreateFailed { code: -12 },
        Outcome::ImageWriteFailed { code: -5 },
        Outcome::LaunchPrepFailed,
        Outcome::Executed { status: 7 },
    ];
    for outcome in outcomes {
        for event in all_events() {
            let (next, action) = Finalization::Done { outcome }.step(event);
            assert_eq!(next, Finalization::Done { outcome });
            assert_eq!(action, Action::Nothing);
        }
    }
}

#[test]
fn hook_installs_the_context_at_descriptor_three() {
    let (installation, status) = kmod_devexec_init(0xffff_8000);
    assert_eq!(
        installation,
        Installation {
            descriptor: 3,
            image: IMAGE
        }
    );
    assert_eq!(status, 0);
}

#[test]
fn hook_gets_the_image_back_from_the_request_context() {
    let request = SubprocessRequest { image: IMAGE };
    let (installation, _) = kmod_devexec_init(request.context());
    assert_eq!(installation.image, request.image);
    assert_eq!(installation.descriptor, EXEC_FD);
}
