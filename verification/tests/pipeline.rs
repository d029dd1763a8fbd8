use pdf_converter::{
    Action, AreaFile, Conversion, ConversionRequest, Event, Failure, Fault, PdfConverter,
    RenderInvocation, Stage,
};

fn request(body: &str, template: &str) -> ConversionRequest {
    ConversionRequest {
        body: body.to_string(),
        template: template.to_string(),
    }
}

fn done() -> Event {
    Event::Completed { output: Vec::new() }
}

fn read(bytes: &[u8]) -> Event {
    Event::Completed {
        output: bytes.to_vec(),
    }
}

fn failed(fault: Fault) -> Event {
    Event::Failed { fault }
}

/// Feeds `events` to a fresh conversion, one for each action that is due,
/// and returns the actions that were due, the last one included.
fn drive(mut conversion: Conversion, events: Vec<Event>) -> (Vec<Action>, Conversion) {
    let mut actions = vec![conversion.pending()];
    for event in events {
        conversion = conversion.step(event);
        actions.push(conversion.pending());
    }
    (actions, conversion)
}

fn start(body: &str, template: &str) -> Conversion {
    PdfConverter::default().convert_to_pdf(request(body, template), None)
}

#[test]
fn a_conversion_starts_by_opening_an_area() {
    let conversion = start("Hello", "theme");
    assert_eq!(conversion.stage(), &Stage::Received);
    assert_eq!(conversion.pending(), Action::OpenArea);
    assert_eq!(conversion.into_reply(), None);
}

#[test]
fn hello_passes_through_unchanged() {
    let pdf = b"%PDF-1.4 rendered from Hello";
    let (actions, conversion) = drive(
        start("Hello", "font:\n  size: 12\n"),
        vec![done(), done(), done(), done(), read(pdf), done()],
    );
    assert_eq!(
        actions,
        vec![
            Action::OpenArea,
            Action::WriteFile {
                file: AreaFile::Body,
                contents: "Hello".to_string(),
            },
            Action::WriteFile {
                file: AreaFile::Theme,
                contents: "font:\n  size: 12\n".to_string(),
            },
            Action::Run {
                invocation: RenderInvocation {
                    program: "asciidoctor-pdf".to_string(),
                    input: AreaFile::Body,
                    output: AreaFile::Output,
                },
            },
            Action::ReadFile {
                file: AreaFile::Output,
            },
            Action::CloseArea,
            Action::Reply,
        ]
    );
    assert_eq!(conversion.into_reply(), Some(Ok(pdf.to_vec())));
}

#[test]
fn stages_follow_in_order() {
    let c = start("b", "t");
    let c = c.step(done());
    assert_eq!(c.stage(), &Stage::AreaOpened);
    let c = c.step(done());
    assert_eq!(c.stage(), &Stage::BodyWritten);
    let c = c.step(done());
    assert_eq!(c.stage(), &Stage::InputsWritten);
    let c = c.step(done());
    assert_eq!(c.stage(), &Stage::RendererInvoked);
    let c = c.step(read(&[1, 2, 3]));
    assert_eq!(c.stage(), &Stage::Succeeded { bytes: vec![1, 2, 3] });
    let c = c.step(done());
    assert_eq!(
        c.stage(),
        &Stage::AreaClosed {
            outcome: Ok(vec![1, 2, 3])
        }
    );
}

#[test]
fn configured_renderer_is_launched() {
    let conversion = PdfConverter::default().convert_to_pdf(
        request("b", "t"),
        Some("other-renderer".to_string()),
    );
    let (actions, _) = drive(conversion, vec![done(), done(), done()]);
    assert_eq!(
        actions[3],
        Action::Run {
            invocation: RenderInvocation::new("other-renderer".to_string()),
        }
    );
}

#[test]
fn empty_texts_are_written_as_they_are() {
    let (actions, _) = drive(start("", ""), vec![done(), done()]);
    assert_eq!(
        actions[1],
        Action::WriteFile {
            file: AreaFile::Body,
            contents: String::new(),
        }
    );
    assert_eq!(
        actions[2],
        Action::WriteFile {
            file: AreaFile::Theme,
            contents: String::new(),
        }
    );
}

#[test]
fn an_area_that_cannot_be_opened_is_a_resource_failure() {
    let (actions, conversion) = drive(start("b", "t"), vec![failed(Fault::Other)]);
    assert_eq!(actions, vec![Action::OpenArea, Action::Reply]);
    assert_eq!(conversion.into_reply(), Some(Err(Failure::Resource)));
}

#[test]
fn a_body_that_cannot_be_written_is_a_resource_failure() {
    let (actions, conversion) = drive(
        start("b", "t"),
        vec![done(), failed(Fault::Other), done()],
    );
    assert_eq!(actions.len(), 4);
    assert_eq!(actions[2], Action::CloseArea);
    assert_eq!(actions[3], Action::Reply);
    assert_eq!(conversion.into_reply(), Some(Err(Failure::Resource)));
}

#[test]
fn a_theme_that_cannot_be_written_is_a_resource_failure() {
    let (actions, conversion) = drive(
        start("b", "t"),
        vec![done(), done(), failed(Fault::NotFound), done()],
    );
    assert_eq!(actions[3], Action::CloseArea);
    assert_eq!(actions[4], Action::Reply);
    assert_eq!(conversion.into_reply(), Some(Err(Failure::Resource)));
}

#[test]
fn a_renderer_that_cannot_be_started_is_an_invocation_failure() {
    let conversion = PdfConverter::default().convert_to_pdf(
        request("Hello", "t"),
        Some("no-such-renderer".to_string()),
    );
    let (actions, conversion) = drive(
        conversion,
        vec![done(), done(), done(), failed(Fault::NotFound), done()],
    );
    assert_eq!(actions[4], Action::CloseArea);
    assert_eq!(actions[5], Action::Reply);
    let reply = conversion.into_reply();
    assert_eq!(reply, Some(Err(Failure::Invocation)));
    assert_eq!(Failure::Invocation.message(), "Error running command");
}

#[test]
fn the_service_stays_available_after_a_failure() {
    let service = PdfConverter::default();
    let failing = service.convert_to_pdf(request("a", "t"), Some("no-such".to_string()));
    let (_, failing) = drive(
        failing,
        vec![done(), done(), done(), failed(Fault::Other), done()],
    );
    assert_eq!(failing.into_reply(), Some(Err(Failure::Invocation)));
    let next = service.convert_to_pdf(request("b", "t"), None);
    assert_eq!(next.pending(), Action::OpenArea);
    let (_, next) = drive(
        next,
        vec![done(), done(), done(), done(), read(b"pdf"), done()],
    );
    assert_eq!(next.into_reply(), Some(Ok(b"pdf".to_vec())));
}

#[test]
fn a_missing_output_is_its_own_failure() {
    let (actions, conversion) = drive(
        start("b", "t"),
        vec![done(), done(), done(), done(), failed(Fault::NotFound), done()],
    );
    assert_eq!(actions[5], Action::CloseArea);
    assert_eq!(actions[6], Action::Reply);
    let reply = conversion.into_reply();
    assert_eq!(reply, Some(Err(Failure::OutputMissing)));
    assert_ne!(reply, Some(Err(Failure::Invocation)));
    assert_ne!(reply, Some(Ok(Vec::new())));
}

#[test]
fn an_unreadable_output_is_a_read_failure() {
    let (_, conversion) = drive(
        start("b", "t"),
        vec![done(), done(), done(), done(), failed(Fault::Other), done()],
    );
    assert_eq!(conversion.into_reply(), Some(Err(Failure::Read)));
}

#[test]
fn an_empty_output_is_still_a_success() {
    let (_, conversion) = drive(
        start("b", "t"),
        vec![done(), done(), done(), done(), read(b""), done()],
    );
    assert_eq!(conversion.into_reply(), Some(Ok(Vec::new())));
}

#[test]
fn what_the_other_steps_hand_in_is_ignored() {
    let (_, conversion) = drive(
        start("b", "t"),
        vec![
            read(b"open"),
            read(b"body"),
            read(b"theme"),
            read(b"run"),
            read(b"the document"),
            read(b"close"),
        ],
    );
    assert_eq!(conversion.into_reply(), Some(Ok(b"the document".to_vec())));
}

#[test]
fn a_failed_close_does_not_change_the_outcome() {
    let (actions, conversion) = drive(
        start("b", "t"),
        vec![
            done(),
            done(),
            done(),
            done(),
            read(b"pdf"),
            failed(Fault::Other),
        ],
    );
    assert_eq!(actions[6], Action::Reply);
    assert_eq!(conversion.into_reply(), Some(Ok(b"pdf".to_vec())));
}

#[test]
fn no_reply_while_work_is_due() {
    let mut events = Vec::new();
    for n in 0..6 {
        let (actions, conversion) = drive(start("b", "t"), events);
        assert_ne!(actions[n], Action::Reply);
        assert_eq!(conversion.into_reply(), None);
        events = Vec::new();
        for k in 0..=n {
            events.push(if k == 4 { read(b"x") } else { done() });
        }
    }
}

#[test]
fn a_settled_conversion_stays_settled() {
    let (_, conversion) = drive(
        start("b", "t"),
        vec![done(), done(), failed(Fault::Other), done()],
    );
    let conversion = conversion.step(read(b"late"));
    assert_eq!(conversion.pending(), Action::Reply);
    let conversion = conversion.step(failed(Fault::NotFound));
    assert_eq!(conversion.pending(), Action::Reply);
    assert_eq!(conversion.into_reply(), Some(Err(Failure::Resource)));
}

#[test]
fn every_history_of_six_events_ends_closed() {
    let choices = [0u8, 1, 2];
    let make = |c: u8| match c {
        0 => read(b"out"),
        1 => failed(Fault::NotFound),
        _ => failed(Fault::Other),
    };
    let mut code = [0usize; 6];
    loop {
        let events: Vec<Event> = code.iter().map(|&i| make(choices[i])).collect();
        let (actions, conversion) = drive(start("b", "t"), events);
        assert_eq!(actions[6], Action::Reply);
        let opened = code[0] == 0;
        let closes = actions.iter().filter(|a| **a == Action::CloseArea).count();
        assert_eq!(closes, if opened { 1 } else { 0 });
        let first_fault = code.iter().take(5).position(|&i| i != 0);
        let expected = match first_fault {
            None => Ok(b"out".to_vec()),
            Some(0) | Some(1) | Some(2) => Err(Failure::Resource),
            Some(3) => Err(Failure::Invocation),
            Some(_) => {
                if code[4] == 1 {
                    Err(Failure::OutputMissing)
                } else {
                    Err(Failure::Read)
                }
            }
        };
        assert_eq!(conversion.into_reply(), Some(expected));
        let mut i = 0;
        while i < 6 && code[i] == 2 {
            code[i] = 0;
            i += 1;
        }
        if i == 6 {
            break;
        }
        code[i] += 1;
    }
}

#[test]
fn two_conversions_do_not_mix() {
    let service = PdfConverter::default();
    let mut first = service.convert_to_pdf(request("first body", "first theme"), None);
    let mut second = service.convert_to_pdf(request("second body", "second theme"), None);
    first = first.step(done());
    second = second.step(done());
    assert_eq!(
        first.pending(),
        Action::WriteFile {
            file: AreaFile::Body,
            contents: "first body".to_string(),
        }
    );
    assert_eq!(
        second.pending(),
        Action::WriteFile {
            file: AreaFile::Body,
            contents: "second body".to_string(),
        }
    );
    second = second.step(done());
    first = first.step(done());
    assert_eq!(
        second.pending(),
        Action::WriteFile {
            file: AreaFile::Theme,
            contents: "second theme".to_string(),
        }
    );
    assert_eq!(
        first.pending(),
        Action::WriteFile {
            file: AreaFile::Theme,
            contents: "first theme".to_string(),
        }
    );
    first = first.step(done()).step(done());
    second = second.step(done()).step(done());
    second = second.step(read(b"second pdf"));
    first = first.step(failed(Fault::NotFound));
    first = first.step(done());
    second = second.step(done());
    assert_eq!(first.into_reply(), Some(Err(Failure::OutputMissing)));
    assert_eq!(second.into_reply(), Some(Ok(b"second pdf".to_vec())));
}

#[test]
fn the_same_request_twice_is_converted_twice() {
    let service = PdfConverter::default();
    let all_well = |bytes: &[u8]| vec![done(), done(), done(), done(), read(bytes), done()];
    let (first_actions, first) = drive(
        service.convert_to_pdf(request("Hello", "theme"), None),
        all_well(b"one"),
    );
    let (second_actions, second) = drive(
        service.convert_to_pdf(request("Hello", "theme"), None),
        all_well(b"two"),
    );
    assert_eq!(first_actions, second_actions);
    assert_eq!(first_actions[0], Action::OpenArea);
    assert_eq!(first_actions.len(), 7);
    assert_eq!(first.into_reply(), Some(Ok(b"one".to_vec())));
    assert_eq!(second.into_reply(), Some(Ok(b"two".to_vec())));
}

#[test]
fn a_fault_is_classified_by_its_stage() {
    for fault in [Fault::NotFound, Fault::Other] {
        assert_eq!(Stage::Received.failure_of(fault), Failure::Resource);
        assert_eq!(Stage::AreaOpened.failure_of(fault), Failure::Resource);
        assert_eq!(Stage::BodyWritten.failure_of(fault), Failure::Resource);
        assert_eq!(Stage::InputsWritten.failure_of(fault), Failure::Invocation);
    }
    assert_eq!(
        Stage::RendererInvoked.failure_of(Fault::NotFound),
        Failure::OutputMissing
    );
    assert_eq!(
        Stage::RendererInvoked.failure_of(Fault::Other),
        Failure::Read
    );
}
