//! What holds of every finalization, whatever the host reports.
//!
//! A run is a payload and the events that a driver fed to the machine, in
//! order. Its trace is the sequence of host calls that the machine asked for.
//! The laws below pin the trace down for each way a finalization can go, and
//! [`law_runs_follow_the_protocol`] does so for every run at once.

use vstd::prelude::*;
use crate::finalize::{
    begin_spec, step_spec, ActionView, Event, FinalizationView, Outcome, Severity,
    SubprocessRequest, WaitMode, EXEC_FD, IMAGE_FLAGS, IMAGE_SIZE_HINT, IMAGE_WRITE_OFFSET,
};
use crate::handle::{error_code, is_error_word, ImageHandle, RequestHandle};
use crate::inject::{hook_spec, HOOK_SUCCESS};

verus! {

/// A finalization under way: where the machine stands, and the host calls it
/// has asked for so far.
pub struct Run {
    pub state: FinalizationView,
    pub trace: Seq<ActionView>,
}

/// The run that has seen no event yet.
pub open spec fn start(payload: Seq<u8>) -> Run {
    Run { state: begin_spec(payload).0, trace: seq![begin_spec(payload).1] }
}

/// The run `r` after one more event.
pub open spec fn advance(r: Run, event: Event) -> Run {
    let next = step_spec(r.state, event);
    Run {
        state: next.0,
        trace: if next.1 is Nothing {
            r.trace
        } else {
            r.trace.push(next.1)
        },
    }
}

/// The run `r` after the events of `events`, in order.
pub open spec fn run_from(r: Run, events: Seq<Event>) -> Run
    decreases events.len(),
{
    if events.len() == 0 {
        r
    } else {
        run_from(advance(r, events[0]), events.drop_first())
    }
}

/// The run of `payload` under `events`.
pub open spec fn run(payload: Seq<u8>, events: Seq<Event>) -> Run {
    run_from(start(payload), events)
}

/// The call that creates the image.
pub open spec fn create_call() -> ActionView {
    ActionView::CreateImage { size_hint: IMAGE_SIZE_HINT, flags: IMAGE_FLAGS }
}

/// The call that writes all of `payload` into `image`, from its start.
pub open spec fn write_call(image: ImageHandle, payload: Seq<u8>) -> ActionView {
    ActionView::WriteImage { image, bytes: payload, offset: IMAGE_WRITE_OFFSET }
}

/// The call that prepares the launch of the helper on `image`.
pub open spec fn prepare_call(image: ImageHandle, written: usize) -> ActionView {
    ActionView::PrepareLaunch { request: SubprocessRequest { image }, written }
}

/// The call that runs `prepared` and waits for the helper to terminate.
pub open spec fn execute_call(prepared: RequestHandle) -> ActionView {
    ActionView::Execute { prepared, wait: WaitMode::Process }
}

/// The call that releases `image`.
pub open spec fn release_call(image: ImageHandle) -> ActionView {
    ActionView::ReleaseImage { image }
}

/// The report that ends a finalization.
pub open spec fn finish(outcome: Outcome) -> ActionView {
    ActionView::Finish { outcome }
}

/// The shape that the protocol allows a run of `payload` to have.
///
/// In each state the trace is fully determined up to the values that the host
/// chose. The image is released in exactly the two failing paths that hold
/// one, once, as the last call before the report; a launch is executed in
/// exactly the successful path, once; and no trace holds both.
pub open spec fn follows_protocol(payload: Seq<u8>, r: Run) -> bool {
    let t = r.trace;
    match r.state {
        FinalizationView::AwaitingImage { payload: pending } => {
            &&& payload.len() > 0
            &&& pending == payload
            &&& t == seq![create_call()]
        },
        FinalizationView::AwaitingWrite { image } => {
            &&& payload.len() > 0
            &&& t == seq![create_call(), write_call(image, payload)]
        },
        FinalizationView::AwaitingRequest { image } => {
            &&& payload.len() > 0
            &&& exists|written: usize|
                t == seq![create_call(), write_call(image, payload), prepare_call(image, written)]
        },
        FinalizationView::AwaitingExit { image } => {
            &&& payload.len() > 0
            &&& exists|written: usize, prepared: RequestHandle|
                t == seq![
                    create_call(),
                    write_call(image, payload),
                    prepare_call(image, written),
                    execute_call(prepared),
                ]
        },
        FinalizationView::Releasing { image, outcome } => {
            &&& payload.len() > 0
            &&& match outcome {
                Outcome::ImageWriteFailed { code } => {
                    &&& code < 0
                    &&& t == seq![create_call(), write_call(image, payload), release_call(image)]
                },
                Outcome::LaunchPrepFailed => exists|written: usize|
                    t == seq![
                        create_call(),
                        write_call(image, payload),
                        prepare_call(image, written),
                        release_call(image),
                    ],
                _ => false,
            }
        },
        FinalizationView::Done { outcome } => match outcome {
            Outcome::EmptyPayload => {
                &&& payload.len() == 0
                &&& t == seq![finish(outcome)]
            },
            Outcome::ImageCreateFailed { code } => {
                &&& payload.len() > 0
                &&& code < 0
                &&& t == seq![create_call(), finish(outcome)]
            },
            Outcome::ImageWriteFailed { code } => {
                &&& payload.len() > 0
                &&& code < 0
                &&& exists|image: ImageHandle|
                    t == seq![
                        create_call(),
                        write_call(image, payload),
                        release_call(image),
                        finish(outcome),
                    ]
            },
            Outcome::LaunchPrepFailed => {
                &&& payload.len() > 0
                &&& exists|image: ImageHandle, written: usize|
                    t == seq![
                        create_call(),
                        write_call(image, payload),
                        prepare_call(image, written),
                        release_call(image),
                        finish(outcome),
                    ]
            },
            Outcome::Executed { status } => {
                &&& payload.len() > 0
                &&& exists|image: ImageHandle, written: usize, prepared: RequestHandle|
                    t == seq![
                        create_call(),
                        write_call(image, payload),
                        prepare_call(image, written),
                        execute_call(prepared),
                        finish(outcome),
                    ]
            },
        },
    }
}

proof fn lemma_advance_follows_protocol(payload: Seq<u8>, r: Run, event: Event)
    requires
        follows_protocol(payload, r),
    ensures
        follows_protocol(payload, advance(r, event)),
{
    let next = advance(r, event);
    let t = r.trace;
    match (r.state, event) {
        (FinalizationView::AwaitingImage { payload: pending }, Event::ImageCreated { raw }) => {
            if is_error_word(raw) {
                let outcome = Outcome::ImageCreateFailed { code: error_code(raw) as isize };
                assert(next.trace =~= seq![create_call(), finish(outcome)]);
            } else {
                assert(next.trace =~= seq![
                    create_call(),
                    write_call(ImageHandle { raw }, payload),
                ]);
            }
        },
        (FinalizationView::AwaitingWrite { image }, Event::ImageWritten { count }) => {
            if count < 0 {
                assert(next.trace =~= seq![
                    create_call(),
                    write_call(image, payload),
                    release_call(image),
                ]);
            } else {
                assert(next.trace =~= seq![
                    create_call(),
                    write_call(image, payload),
                    prepare_call(image, count as usize),
                ]);
            }
        },
        (FinalizationView::AwaitingRequest { image }, Event::LaunchPrepared { raw }) => {
            let written = choose|written: usize|
                t == seq![create_call(), write_call(image, payload), prepare_call(image, written)];
            if raw == 0 {
                assert(next.trace =~= seq![
                    create_call(),
                    write_call(image, payload),
                    prepare_call(image, written),
                    release_call(image),
                ]);
            } else {
                assert(next.trace =~= seq![
                    create_call(),
                    write_call(image, payload),
                    prepare_call(image, written),
                    execute_call(RequestHandle { raw }),
                ]);
            }
        },
        (FinalizationView::AwaitingExit { image }, Event::HelperExited { status }) => {
            let (written, prepared) = choose|written: usize, prepared: RequestHandle|
                t == seq![
                    create_call(),
                    write_call(image, payload),
                    prepare_call(image, written),
                    execute_call(prepared),
                ];
            assert(next.trace =~= seq![
                create_call(),
                write_call(image, payload),
                prepare_call(image, written),
                execute_call(prepared),
                finish(Outcome::Executed { status }),
            ]);
        },
        (FinalizationView::Releasing { image, outcome }, Event::ImageReleased) => {
            match outcome {
                Outcome::ImageWriteFailed { code } => {
                    assert(next.trace =~= seq![
                        create_call(),
                        write_call(image, payload),
                        release_call(image),
                        finish(outcome),
                    ]);
                },
                Outcome::LaunchPrepFailed => {
                    let written = choose|written: usize|
                        t == seq![
                            create_call(),
                            write_call(image, payload),
                            prepare_call(image, written),
                            release_call(image),
                        ];
                    assert(next.trace =~= seq![
                        create_call(),
                        write_call(image, payload),
                        prepare_call(image, written),
                        release_call(image),
                        finish(outcome),
                    ]);
                },
                _ => {},
            }
        },
        _ => {
            assert(next == r);
        },
    }
}

/// Every run follows the protocol: whatever the payload, and whatever events
/// arrive in whatever order, the host calls asked for so far are the ones that
/// [`follows_protocol`] lists for the state reached.
pub proof fn law_runs_follow_the_protocol(payload: Seq<u8>, events: Seq<Event>)
    ensures
        follows_protocol(payload, run(payload, events)),
{
    lemma_run_from_follows_protocol(payload, start(payload), events);
}

proof fn lemma_run_from_follows_protocol(payload: Seq<u8>, r: Run, events: Seq<Event>)
    requires
        follows_protocol(payload, r),
    ensures
        follows_protocol(payload, run_from(r, events)),
    decreases events.len(),
{
    if events.len() > 0 {
        lemma_advance_follows_protocol(payload, r, events[0]);
        lemma_run_from_follows_protocol(payload, advance(r, events[0]), events.drop_first());
    }
}

/// A finished run stays as it is: no event makes the machine ask for another
/// host call.
pub proof fn law_finished_run_is_final(r: Run, events: Seq<Event>)
    requires
        r.state is Done,
    ensures
        run_from(r, events) == r,
    decreases events.len(),
{
    if events.len() > 0 {
        assert(advance(r, events[0]) == r);
        law_finished_run_is_final(r, events.drop_first());
    }
}

/// A run that waits for the release of its image does nothing until the
/// release is reported, and then finishes with the outcome it has kept.
proof fn lemma_releasing_run(r: Run, events: Seq<Event>)
    requires
        r.state is Releasing,
    ensures
        events.contains(Event::ImageReleased) ==> run_from(r, events) == (Run {
            state: FinalizationView::Done { outcome: r.state->Releasing_outcome },
            trace: r.trace.push(finish(r.state->Releasing_outcome)),
        }),
        !events.contains(Event::ImageReleased) ==> run_from(r, events) == r,
    decreases events.len(),
{
    if events.len() > 0 {
        let rest = events.drop_first();
        assert(forall|i: int| 0 <= i < rest.len() ==> rest[i] == events[i + 1]);
        if events[0] == Event::ImageReleased {
            law_finished_run_is_final(advance(r, events[0]), rest);
        } else {
            assert(advance(r, events[0]) == r);
            lemma_releasing_run(r, rest);
            if rest.contains(Event::ImageReleased) {
                let i = choose|i: int| 0 <= i < rest.len() && rest[i] == Event::ImageReleased;
                assert(events[i + 1] == Event::ImageReleased);
            }
            if events.contains(Event::ImageReleased) {
                let i = choose|i: int| 0 <= i < events.len() && events[i] == Event::ImageReleased;
                assert(rest[i - 1] == Event::ImageReleased);
            }
        }
    }
}

/// An empty payload makes no host call: whatever events arrive, the run is
/// over from the start, with a warning, and neither an image nor a launch was
/// asked for.
pub proof fn law_empty_payload_makes_no_host_call(payload: Seq<u8>, events: Seq<Event>)
    requires
        payload.len() == 0,
    ensures
        run(payload, events).state == (FinalizationView::Done { outcome: Outcome::EmptyPayload }),
        run(payload, events).trace == seq![finish(Outcome::EmptyPayload)],
        Outcome::EmptyPayload.spec_severity() == Severity::Warning,
{
    law_finished_run_is_final(start(payload), events);
}

/// A failed image creation ends finalization at once: the run holds the
/// creation and the error report and nothing else. Nothing was written,
/// nothing was launched, and there is no image to release.
pub proof fn law_failed_creation_ends_finalization(
    payload: Seq<u8>,
    events: Seq<Event>,
    raw: usize,
)
    requires
        payload.len() > 0,
        events.len() >= 1,
        events[0] == (Event::ImageCreated { raw }),
        is_error_word(raw),
    ensures
        ({
            let outcome = Outcome::ImageCreateFailed { code: error_code(raw) as isize };
            &&& run(payload, events).state == (FinalizationView::Done { outcome })
            &&& run(payload, events).trace == seq![create_call(), finish(outcome)]
            &&& outcome.spec_severity() == Severity::Error
        }),
{
    let outcome = Outcome::ImageCreateFailed { code: error_code(raw) as isize };
    let r1 = advance(start(payload), events[0]);
    assert(r1.trace =~= seq![create_call(), finish(outcome)]);
    law_finished_run_is_final(r1, events.drop_first());
}

/// A failed image write releases the image and launches nothing: the call
/// after the write is the release of the very image that was created, and the
/// error is reported once the release is, and not before.
pub proof fn law_failed_write_releases_image(
    payload: Seq<u8>,
    events: Seq<Event>,
    raw: usize,
    count: isize,
)
    requires
        payload.len() > 0,
        events.len() >= 2,
        events[0] == (Event::ImageCreated { raw }),
        !is_error_word(raw),
        events[1] == (Event::ImageWritten { count }),
        count < 0,
    ensures
        ({
            let image = ImageHandle { raw };
            let outcome = Outcome::ImageWriteFailed { code: count };
            let calls = seq![create_call(), write_call(image, payload), release_call(image)];
            let r = run(payload, events);
            if events.skip(2).contains(Event::ImageReleased) {
                &&& r.state == (FinalizationView::Done { outcome })
                &&& r.trace == calls.push(finish(outcome))
            } else {
                &&& r.state == (FinalizationView::Releasing { image, outcome })
                &&& r.trace == calls
            }
        }),
{
    let image = ImageHandle { raw };
    let r1 = advance(start(payload), events[0]);
    let rest1 = events.drop_first();
    let r2 = advance(r1, rest1[0]);
    let rest2 = rest1.drop_first();
    assert(rest2 =~= events.skip(2));
    assert(run_from(r1, rest1) == run_from(r2, rest2));
    assert(r2.trace =~= seq![create_call(), write_call(image, payload), release_call(image)]);
    lemma_releasing_run(r2, rest2);
}

/// A failed launch preparation releases the image and launches nothing: the
/// call after the preparation is the release of the image, and the error is
/// reported once the release is, and not before.
pub proof fn law_failed_preparation_releases_image(
    payload: Seq<u8>,
    events: Seq<Event>,
    raw: usize,
    count: isize,
)
    requires
        payload.len() > 0,
        events.len() >= 3,
        events[0] == (Event::ImageCreated { raw }),
        !is_error_word(raw),
        events[1] == (Event::ImageWritten { count }),
        count >= 0,
        events[2] == (Event::LaunchPrepared { raw: 0 }),
    ensures
        ({
            let image = ImageHandle { raw };
            let outcome = Outcome::LaunchPrepFailed;
            let calls = seq![
                create_call(),
                write_call(image, payload),
                prepare_call(image, count as usize),
                release_call(image),
            ];
            let r = run(payload, events);
            if events.skip(3).contains(Event::ImageReleased) {
                &&& r.state == (FinalizationView::Done { outcome })
                &&& r.trace == calls.push(finish(outcome))
            } else {
                &&& r.state == (FinalizationView::Releasing { image, outcome })
                &&& r.trace == calls
            }
        }),
{
    let image = ImageHandle { raw };
    let r1 = advance(start(payload), events[0]);
    let rest1 = events.drop_first();
    let r2 = advance(r1, rest1[0]);
    let rest2 = rest1.drop_first();
    let r3 = advance(r2, rest2[0]);
    let rest3 = rest2.drop_first();
    assert(rest3 =~= events.skip(3));
    assert(run_from(r1, rest1) == run_from(r2, rest2));
    assert(run_from(r2, rest2) == run_from(r3, rest3));
    assert(r3.trace =~= seq![
        create_call(),
        write_call(image, payload),
        prepare_call(image, count as usize),
        release_call(image),
    ]);
    lemma_releasing_run(r3, rest3);
}

/// On full success exactly one helper is launched, and on exactly the payload.
///
/// The run holds one call of each kind, in order: the image is created, all of
/// the payload is written into it from offset zero, the launch is prepared on
/// that image, and the prepared launch is executed in the mode that waits for
/// the helper to terminate. No release is asked for: the image went with the
/// request. In the helper, the hook puts that image at descriptor `EXEC_FD`.
pub proof fn law_success_launches_payload_once(
    payload: Seq<u8>,
    events: Seq<Event>,
    raw: usize,
    count: isize,
    prepared: usize,
    status: i32,
    table: Map<u32, ImageHandle>,
)
    requires
        payload.len() > 0,
        events.len() >= 4,
        events[0] == (Event::ImageCreated { raw }),
        !is_error_word(raw),
        events[1] == (Event::ImageWritten { count }),
        count >= 0,
        events[2] == (Event::LaunchPrepared { raw: prepared }),
        prepared != 0,
        events[3] == (Event::HelperExited { status }),
    ensures
        ({
            let image = ImageHandle { raw };
            let outcome = Outcome::Executed { status };
            let request = SubprocessRequest { image };
            &&& run(payload, events).state == (FinalizationView::Done { outcome })
            &&& run(payload, events).trace == seq![
                create_call(),
                ActionView::WriteImage { image, bytes: payload, offset: 0 },
                ActionView::PrepareLaunch { request, written: count as usize },
                ActionView::Execute {
                    prepared: RequestHandle { raw: prepared },
                    wait: WaitMode::Process,
                },
                finish(outcome),
            ]
            &&& outcome.spec_severity() == Severity::Info
            &&& hook_spec(request.spec_context()).1 == HOOK_SUCCESS
            &&& hook_spec(request.spec_context()).0.installed_in(table)[EXEC_FD] == image
        }),
{
    let image = ImageHandle { raw };
    let outcome = Outcome::Executed { status };
    let r1 = advance(start(payload), events[0]);
    let rest1 = events.drop_first();
    let r2 = advance(r1, rest1[0]);
    let rest2 = rest1.drop_first();
    let r3 = advance(r2, rest2[0]);
    let rest3 = rest2.drop_first();
    let r4 = advance(r3, rest3[0]);
    let rest4 = rest3.drop_first();
    assert(run_from(r1, rest1) == run_from(r2, rest2));
    assert(run_from(r2, rest2) == run_from(r3, rest3));
    assert(run_from(r3, rest3) == run_from(r4, rest4));
    assert(r4.trace =~= seq![
        create_call(),
        write_call(image, payload),
        prepare_call(image, count as usize),
        execute_call(RequestHandle { raw: prepared }),
        finish(outcome),
    ]);
    law_finished_run_is_final(r4, rest4);
}

} // verus!
