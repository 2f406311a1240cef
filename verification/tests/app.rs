use std::cell::RefCell;
use std::rc::Rc;

use rust_mqtt_chat::app::network_events_handler::NetworkEventsHandler;
use rust_mqtt_chat::app::terminal_events_handler::TerminalEventsHandler;
use rust_mqtt_chat::app::{
    first_failure, Activity, App, LoopStep, Orchestrator, RENDER_INTERVAL_MS,
};
use rust_mqtt_chat::error::Error;
use rust_mqtt_chat::events_publisher::EventsPublisher;
use rust_mqtt_chat::network::NetworkEvent;
use rust_mqtt_chat::renderer::{Message, Renderer, State, Timestamp};
use rust_mqtt_chat::TerminalEvent;

/// A renderer that keeps what it was asked to draw.
struct RendererMock {
    drawn: Rc<RefCell<Vec<State>>>,
    answer: Result<(), Error>,
}

impl Renderer for RendererMock {
    fn render(&mut self, state: &State) -> Result<(), Error> {
        self.drawn.borrow_mut().push(state.clone());
        self.answer
    }
}

struct PublisherMock {
    log: Rc<RefCell<Vec<NetworkEvent>>>,
}

impl EventsPublisher for PublisherMock {
    type Message = NetworkEvent;

    fn publish(&self, message: NetworkEvent) -> Result<(), Error> {
        self.log.borrow_mut().push(message);
        Ok(())
    }
}

fn app_with_log(answer: Result<(), Error>) -> (App<RendererMock>, Rc<RefCell<Vec<State>>>) {
    let drawn = Rc::new(RefCell::new(Vec::new()));
    (App::new(RendererMock { drawn: drawn.clone(), answer }), drawn)
}

fn handler() -> (TerminalEventsHandler<PublisherMock>, Rc<RefCell<Vec<NetworkEvent>>>) {
    let log = Rc::new(RefCell::new(Vec::new()));
    (TerminalEventsHandler::new(PublisherMock { log: log.clone() }), log)
}

#[test]
fn start_rendering_loop() {
    let (mut tested_app, drawn) = app_with_log(Ok(()));

    assert_eq!(tested_app.render_tick(), LoopStep::Continue);
    assert_eq!(tested_app.render_tick(), LoopStep::Continue);

    assert!(drawn.borrow().len() >= 2);
    assert_eq!(drawn.borrow()[0], State::default());
}

#[test]
fn stop_rendering_loop_on_quit() {
    let (mut tested_app, drawn) = app_with_log(Ok(()));
    let (terminal, _) = handler();

    tested_app.on_terminal_event(&terminal, TerminalEvent::Quit).unwrap();
    let result = tested_app.render_tick();

    assert_eq!(result, LoopStep::Finished); // App finished before timeout
    assert!(tested_app.state().quit);
    assert!(drawn.borrow().is_empty());
}

#[test]
fn quit_propagation() {
    let (mut app, drawn) = app_with_log(Ok(()));
    let (terminal, published) = handler();

    assert_eq!(app.render_tick(), LoopStep::Continue);
    app.on_terminal_event(&terminal, TerminalEvent::Character('a')).unwrap();
    let before_quit = drawn.borrow().len();
    assert_eq!(before_quit, 2);

    app.on_terminal_event(&terminal, TerminalEvent::Quit).unwrap();
    assert!(app.state().quit);

    for _ in 0..3 {
        assert_eq!(app.render_tick(), LoopStep::Finished);
        assert_eq!(app.redraw(), Ok(()));
    }
    app.on_terminal_event(&terminal, TerminalEvent::Character('b')).unwrap();
    app.on_network_message(
        &NetworkEventsHandler::new(),
        Message::at("u".to_string(), "m".to_string(), Timestamp { secs: 1, nanos: 0 }),
    )
    .unwrap();

    assert_eq!(drawn.borrow().len(), before_quit);
    assert!(app.state().quit);
    assert!(published.borrow().is_empty());
}

#[test]
fn a_failing_renderer_fails_the_render_loop() {
    let (mut app, drawn) = app_with_log(Err(Error::Terminal));

    assert_eq!(app.render_tick(), LoopStep::Failed(Error::Terminal));
    assert_eq!(drawn.borrow().len(), 1);
    assert_eq!(app.redraw(), Err(Error::Terminal));
}

#[test]
fn terminal_events_change_the_state_and_are_drawn() {
    let drawn = Rc::new(RefCell::new(Vec::new()));
    let mut app =
        App::for_user(RendererMock { drawn: drawn.clone(), answer: Ok(()) }, "Chef".to_string());
    let (terminal, published) = handler();

    for event in [TerminalEvent::Character('m'), TerminalEvent::Character('e'), TerminalEvent::Accept]
    {
        app.on_terminal_event(&terminal, event).unwrap();
    }

    let state = app.state();
    assert_eq!(state.input_message, "");
    assert_eq!(state.cursor, 0);
    assert_eq!(state.current_user, "Chef");
    assert_eq!(state.messages.len(), 1);
    assert_eq!(state.messages[0].user, "Chef");
    assert_eq!(state.messages[0].msg, "me");
    assert_eq!(*published.borrow(), vec![NetworkEvent::Message(b"me".to_vec())]);
    assert_eq!(drawn.borrow().len(), 3);
    assert_eq!(drawn.borrow()[1].input_message, "me");
    assert_eq!(drawn.borrow()[2], *state);
}

#[test]
fn update_state_based_on_network_events() {
    let tested_handler = NetworkEventsHandler::new();
    let mut state = State::default();
    let time = Timestamp { secs: 1_620_543_600, nanos: 0 };

    tested_handler.handle(&mut state, Message::at("Chef".into(), "Hi".into(), time));

    assert_eq!(
        state,
        State {
            messages: vec![Message { user: "Chef".into(), msg: "Hi".into(), time }],
            ..Default::default()
        }
    );
}

#[test]
fn network_messages_are_appended_in_arrival_order() {
    let (mut app, drawn) = app_with_log(Ok(()));
    let network = NetworkEventsHandler::new();
    let (terminal, _) = handler();
    app.on_terminal_event(&terminal, TerminalEvent::Character('x')).unwrap();

    for (i, text) in ["one", "two", "three"].iter().enumerate() {
        let time = Timestamp { secs: i as i64, nanos: 0 };
        app.on_network_message(&network, Message::at("u".into(), text.to_string(), time)).unwrap();
    }

    let texts: Vec<&str> = app.state().messages.iter().map(|m| m.msg.as_str()).collect();
    assert_eq!(texts, vec!["one", "two", "three"]);
    assert_eq!(app.state().input_message, "x");
    assert_eq!(app.state().cursor, 1);
    assert_eq!(drawn.borrow().len(), 4);
}

#[test]
fn the_render_interval_is_200_milliseconds() {
    assert_eq!(RENDER_INTERVAL_MS, 200);
}

#[test]
fn first_failure_prefers_the_earlier() {
    assert_eq!(first_failure(Ok(()), Ok(())), Ok(()));
    assert_eq!(first_failure(Err(Error::Transport), Ok(())), Err(Error::Transport));
    assert_eq!(first_failure(Ok(()), Err(Error::Terminal)), Err(Error::Terminal));
    assert_eq!(first_failure(Err(Error::Transport), Err(Error::Terminal)), Err(Error::Transport));
}

#[test]
fn orchestrator_waits_for_all_three_loops() {
    let mut orchestrator = Orchestrator::new();
    assert_eq!(orchestrator.outcome(), None);
    orchestrator.finish(Activity::Terminal, Ok(()));
    assert_eq!(orchestrator.outcome(), None);
    orchestrator.finish(Activity::Render, Ok(()));
    assert_eq!(orchestrator.outcome(), None);
    orchestrator.finish(Activity::Terminal, Ok(()));
    assert_eq!(orchestrator.outcome(), None);
    orchestrator.finish(Activity::Network, Ok(()));
    assert_eq!(orchestrator.outcome(), Some(Ok(())));
    assert_eq!(orchestrator.failure(), None);
}

#[test]
fn orchestrator_surfaces_the_first_failure() {
    let mut orchestrator = Orchestrator::new();
    orchestrator.finish(Activity::Render, Ok(()));
    assert_eq!(orchestrator.failure(), None);
    orchestrator.finish(Activity::Network, Err(Error::Decrypt));
    assert_eq!(orchestrator.failure(), Some(Error::Decrypt));
    assert_eq!(orchestrator.outcome(), None);
    orchestrator.finish(Activity::Terminal, Err(Error::Terminal));
    assert_eq!(orchestrator.failure(), Some(Error::Decrypt));
    assert_eq!(orchestrator.outcome(), Some(Err(Error::Decrypt)));
}

#[test]
fn orchestrator_ignores_a_second_report_of_a_loop() {
    let mut orchestrator = Orchestrator::new();
    orchestrator.finish(Activity::Network, Ok(()));
    orchestrator.finish(Activity::Network, Err(Error::Transport));
    assert_eq!(orchestrator.failure(), None);
    orchestrator.finish(Activity::Terminal, Err(Error::Closed));
    orchestrator.finish(Activity::Render, Err(Error::Terminal));
    orchestrator.finish(Activity::Terminal, Err(Error::LockPoison));
    assert_eq!(orchestrator.outcome(), Some(Err(Error::Closed)));
}

struct RefusingPublisher;

impl EventsPublisher for RefusingPublisher {
    type Message = NetworkEvent;

    fn publish(&self, _message: NetworkEvent) -> Result<(), Error> {
        Err(Error::Transport)
    }
}

#[test]
fn a_tick_before_quit_draws_the_state_as_it_is() {
    let (mut app, drawn) = app_with_log(Ok(()));
    let (terminal, _) = handler();
    app.on_terminal_event(&terminal, TerminalEvent::Character('h')).unwrap();
    app.on_terminal_event(&terminal, TerminalEvent::Character('i')).unwrap();
    let before = drawn.borrow().len();

    assert_eq!(app.render_tick(), LoopStep::Continue);

    assert_eq!(drawn.borrow().len(), before + 1);
    assert_eq!(drawn.borrow()[before], *app.state());
    assert_eq!(drawn.borrow()[before].input_message, "hi");
    assert_eq!(drawn.borrow()[before].cursor, 2);
}

#[test]
fn the_publishers_failure_comes_before_the_renderers_answer() {
    let drawn = Rc::new(RefCell::new(Vec::new()));
    let mut app = App::new(RendererMock { drawn: drawn.clone(), answer: Err(Error::Terminal) });
    let refusing = TerminalEventsHandler::new(RefusingPublisher);

    assert_eq!(app.on_terminal_event(&refusing, TerminalEvent::Accept), Err(Error::Transport));
    assert_eq!(drawn.borrow().len(), 1);
    assert_eq!(drawn.borrow()[0].messages.len(), 1);

    assert_eq!(
        app.on_terminal_event(&refusing, TerminalEvent::Character('a')),
        Err(Error::Terminal)
    );
    assert_eq!(drawn.borrow().len(), 2);
    assert_eq!(drawn.borrow()[1].input_message, "a");

    let (terminal, published) = handler();
    assert_eq!(app.on_terminal_event(&terminal, TerminalEvent::Accept), Err(Error::Terminal));
    assert_eq!(*published.borrow(), vec![NetworkEvent::Message(b"a".to_vec())]);

    assert_eq!(app.on_terminal_event(&refusing, TerminalEvent::Quit), Ok(()));
    assert_eq!(drawn.borrow().len(), 3);
}

#[test]
fn a_network_message_is_drawn_and_the_answer_returned() {
    let (mut app, drawn) = app_with_log(Err(Error::Terminal));
    let message = Message::at("u".into(), "m".into(), Timestamp { secs: 1, nanos: 0 });

    let answer = app.on_network_message(&NetworkEventsHandler::new(), message.clone());

    assert_eq!(answer, Err(Error::Terminal));
    assert_eq!(drawn.borrow().len(), 1);
    assert_eq!(drawn.borrow()[0].messages, vec![message]);
}
