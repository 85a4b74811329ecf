//! The chat screen's reaction to keys and events: what each key does to the
//! input line and the message list, and how the screen handles the events
//! that keys and the node produce.

use vstd::prelude::*;

use crate::controller::LogicEvent;
use crate::model::input_view_model::{deleted, entered, min_nat, saturating_dec, saturating_inc, InputMode, InputViewModel};
use crate::model::log_view_model::Log;
use crate::model::message_view_model::{scrolled_down, scrolled_up, Message, MessageViewModel, UserType};
use crate::model::{AppViewModel, AutoScrollableViewModel};
use crate::text::string_of;
use crate::time::local_offset_secs;

verus! {

/// A key, as far as the screen distinguishes keys.
#[derive(Debug, Clone, Copy, PartialEq, Eq, Structural)]
pub enum KeyCode {
    Char(char),
    Enter,
    Backspace,
    Left,
    Right,
    Up,
    Down,
    Esc,
    Other,
}

/// A key event: the key, whether it was pressed (not repeated or released),
/// and whether Control is the only modifier held.
#[derive(Debug, Clone, Copy, PartialEq, Eq, Structural)]
pub struct KeyInput {
    pub code: KeyCode,
    pub is_press: bool,
    pub control_only: bool,
}

/// What the input line reports.
#[derive(Clone, Debug)]
pub enum InputEvent {
    /// A message to send.
    MsgSending(Message),
    /// A message received.
    MsgReceiving(Message),
    /// The peers changed.
    PeersUpdating(Vec<String>),
    /// The input mode changed.
    ChangeStatus,
}

impl InputEvent {
    /// The screen event for a node event. Log events have no input event
    /// (the screen has no handling for them and stops there), hence the
    /// precondition.
    pub fn from_logic(val: LogicEvent) -> (e: InputEvent)
        requires
            !(val is Log),
        ensures
            val matches LogicEvent::PeerListUpdated(p) ==> (e matches InputEvent::PeersUpdating(q) && q == p),
            val matches LogicEvent::NewMessageReceived(m) ==> (e matches InputEvent::MsgReceiving(n) && n == m),
    {
        match val {
            LogicEvent::PeerListUpdated(hash_set) => InputEvent::PeersUpdating(hash_set),
            LogicEvent::NewMessageReceived(message) => InputEvent::MsgReceiving(message),
            LogicEvent::Log(_, _) => InputEvent::ChangeStatus,
        }
    }
}

/// What the screen handles.
#[derive(Clone, Debug)]
pub enum AppEvent {
    Input(InputEvent),
    Logging(Log),
    Quit,
}

/// The input line keeps its text, cursor and user.
pub open spec fn same_line(a: InputViewModel, b: InputViewModel) -> bool {
    a.input@ == b.input@ && a.character_index == b.character_index && a.myself_view() == b.myself_view()
}

/// What a key does on the input line, from the line `before` to the line `after`
/// with the reported event `ev`. In normal mode `e` starts editing, and
/// `Esc`, `q` or Control-`c` quit. In editing mode (pressed keys only)
/// `Enter` sends the line, characters are typed, `Backspace` deletes,
/// the arrows move the cursor and `Esc` stops editing. A sent message shows
/// its time at the local offset `offset_secs`.
pub open spec fn input_key_step(
    before: InputViewModel,
    key: KeyInput,
    after: InputViewModel,
    ev: Option<AppEvent>,
    offset_secs: i32,
) -> bool {
    &&& before.input_mode == InputMode::Normal ==> {
            &&& same_line(after, before)
            &&& key.code == KeyCode::Char('e') ==> after.input_mode == InputMode::Editing
                && (ev matches Some(AppEvent::Input(InputEvent::ChangeStatus)))
            &&& key.code != KeyCode::Char('e') ==> after.input_mode == InputMode::Normal
            &&& (key.code == KeyCode::Esc || key.code == KeyCode::Char('q')) ==> (ev matches Some(AppEvent::Quit))
            &&& ((key.code == KeyCode::Char('c') || key.code == KeyCode::Char('C')) && key.control_only) ==> (ev matches Some(
                AppEvent::Quit,
            ))
            &&& !(key.code == KeyCode::Char('e') || key.code == KeyCode::Esc || key.code == KeyCode::Char('q') || ((key.code
                == KeyCode::Char('c') || key.code == KeyCode::Char('C')) && key.control_only)) ==> ev is None
        }
    &&& before.input_mode == InputMode::Editing && !key.is_press ==> after == before && ev is None
    &&& before.input_mode == InputMode::Editing && key.is_press ==> {
            &&& key.code == KeyCode::Enter ==> (ev matches Some(AppEvent::Input(InputEvent::MsgSending(m)))
                && m.content_view() == before.input@ && m.route_view() is None && m.offset_view() == offset_secs
                && (m.user_view() matches UserType::User(id) && id@ == before.myself_view())
                && after.input@ == Seq::<char>::empty() && after.character_index == 0
                && after.input_mode == InputMode::Editing)
            &&& key.code != KeyCode::Enter ==> ev is None
            &&& (key.code matches KeyCode::Char(c) ==> (after.input@, after.character_index as nat)
                == entered(before.input@, before.character_index, c) && after.input_mode
                == InputMode::Editing)
            &&& key.code == KeyCode::Backspace ==> (after.input@, after.character_index as nat)
                == deleted(before.input@, before.character_index) && after.input_mode
                == InputMode::Editing
            &&& key.code == KeyCode::Left ==> after.input@ == before.input@ && after.character_index
                == min_nat(saturating_dec(before.character_index), before.input@.len())
                && after.input_mode == InputMode::Editing
            &&& key.code == KeyCode::Right ==> after.input@ == before.input@ && after.character_index
                == min_nat(saturating_inc(before.character_index), before.input@.len())
                && after.input_mode == InputMode::Editing
            &&& key.code == KeyCode::Esc ==> same_line(after, before) && after.input_mode
                == InputMode::Normal
            &&& (key.code == KeyCode::Up || key.code == KeyCode::Down || key.code == KeyCode::Other) ==> after
                == before
        }
    &&& after.myself_view() == before.myself_view()
}

/// Handles a key on the input line (see [`input_key_step`]); a message it
/// sends shows its time at the local offset `offset_secs`.
pub fn input_key_event(model: &mut InputViewModel, key: &KeyInput, offset_secs: i32) -> (ev: Option<AppEvent>)
    ensures
        input_key_step(*old(model), *key, *final(model), ev, offset_secs),
{
    let mode = model.input_mode;
    let mut ev: Option<AppEvent> = None;
    if mode == InputMode::Normal {
        match key.code {
            KeyCode::Char('e') => {
                model.input_mode = InputMode::Editing;
                ev = Some(AppEvent::Input(InputEvent::ChangeStatus));
            },
            KeyCode::Esc => {
                ev = Some(AppEvent::Quit);
            },
            KeyCode::Char('q') => {
                ev = Some(AppEvent::Quit);
            },
            KeyCode::Char('c') => {
                if key.control_only {
                    ev = Some(AppEvent::Quit);
                }
            },
            KeyCode::Char('C') => {
                if key.control_only {
                    ev = Some(AppEvent::Quit);
                }
            },
            _ => {},
        }
    } else if key.is_press {
        match key.code {
            KeyCode::Enter => {
                let msg = model.submit_message(offset_secs);
                ev = Some(AppEvent::Input(InputEvent::MsgSending(msg)));
            },
            KeyCode::Char(to_insert) => {
                model.enter_char(to_insert);
            },
            KeyCode::Backspace => {
                model.delete_char();
            },
            KeyCode::Left => {
                model.move_cursor_left();
            },
            KeyCode::Right => {
                model.move_cursor_right();
            },
            KeyCode::Esc => {
                model.input_mode = InputMode::Normal;
            },
            _ => {},
        }
    }
    ev
}

/// What a key does on the message list, from `before` to `after`: the up
/// and down arrows, pressed, scroll by one line; other keys change nothing.
pub open spec fn message_key_step(before: MessageViewModel, key: KeyInput, after: MessageViewModel) -> bool {
    &&& key.is_press && key.code == KeyCode::Up ==> after.scroll_pos() == scrolled_up(before.scroll_pos()) && !after.at_end()
    &&& key.is_press && key.code == KeyCode::Down ==> after.scroll_pos() == scrolled_down(before.scroll_pos()) && !after.at_end()
    &&& !(key.is_press && (key.code == KeyCode::Up || key.code == KeyCode::Down)) ==> after == before
    &&& after.messages_view() == before.messages_view()
}

/// Handles a key on the message list (see [`message_key_step`]).
pub fn message_key_event(model: &mut MessageViewModel, key: &KeyInput)
    ensures
        message_key_step(*old(model), *key, *final(model)),
{
    if key.is_press {
        match key.code {
            KeyCode::Up => {
                model.vertical_scroll_up();
            },
            KeyCode::Down => {
                model.vertical_scroll_down();
            },
            _ => {},
        }
    }
}

/// The chat screen.
#[derive(Debug, Clone)]
pub struct App {
    /// Whether the screen is running.
    pub running: bool,
    /// What the screen shows.
    pub view_model: AppViewModel,
    /// The offset of the local time zone, read once when the screen starts;
    /// every message the screen makes shows its time at it.
    pub offset_secs: i32,
}

impl App {
    /// The one local offset of the screen, in seconds east of UTC.
    pub open spec fn local_offset(&self) -> i32 {
        self.offset_secs
    }

    /// A running screen of the placeholder user `myself_id`. The local
    /// offset is read here, once; it depends on the machine, and chrono keeps
    /// it strictly within one day.
    pub fn new() -> (app: App)
        ensures
            app.running,
            app.view_model.input_vm.myself_view() == "myself_id"@,
            app.view_model.message_vm.messages_view() == Seq::<Message>::empty(),
            -86_400 < app.local_offset() < 86_400,
    {
        App { running: true, view_model: AppViewModel::new(string_of("myself_id")), offset_secs: local_offset_secs() }
    }

    /// Handles a key: first on the input line, then on the message list. The
    /// event the input line reports, if any, is given back to be handled.
    pub fn handle_key_events(&mut self, key: &KeyInput) -> (ev: Option<AppEvent>)
        ensures
            input_key_step(
                old(self).view_model.input_vm,
                *key,
                final(self).view_model.input_vm,
                ev,
                old(self).local_offset(),
            ),
            message_key_step(old(self).view_model.message_vm, *key, final(self).view_model.message_vm),
            final(self).view_model.peer_vm == old(self).view_model.peer_vm,
            final(self).view_model.log_vm == old(self).view_model.log_vm,
            final(self).running == old(self).running,
            final(self).local_offset() == old(self).local_offset(),
    {
        let ev = input_key_event(&mut self.view_model.input_vm, key, self.offset_secs);
        message_key_event(&mut self.view_model.message_vm, key);
        ev
    }

    /// Handles a screen event: sent and received messages are added to the
    /// list, `Quit` stops the screen, a mode change needs nothing. Peer and
    /// log events have no handling on this screen (it stops there), hence
    /// the precondition.
    pub fn handle_app_event(&mut self, event: AppEvent)
        requires
            !(event matches AppEvent::Input(InputEvent::PeersUpdating(_))),
            !(event is Logging),
        ensures
            event matches AppEvent::Input(InputEvent::MsgSending(m)) ==> (final(self).view_model.message_vm.messages_view()
                == old(self).view_model.message_vm.messages_view().push(m) && final(self).running == old(self).running),
            event matches AppEvent::Input(InputEvent::MsgReceiving(m)) ==> (final(self).view_model.message_vm.messages_view()
                == old(self).view_model.message_vm.messages_view().push(m) && final(self).running == old(self).running),
            (event is Input && (event->Input_0 is MsgSending || event->Input_0 is MsgReceiving)) ==> {
                &&& final(self).view_model.input_vm == old(self).view_model.input_vm
                &&& final(self).view_model.peer_vm == old(self).view_model.peer_vm
                &&& final(self).view_model.log_vm == old(self).view_model.log_vm
                &&& final(self).view_model.message_vm.scroll_pos() == old(self).view_model.message_vm.scroll_pos()
                &&& final(self).view_model.message_vm.at_end() == old(self).view_model.message_vm.at_end()
                &&& final(self).view_model.message_vm.scrollbar_view() == old(self).view_model.message_vm.scrollbar_view()
                &&& final(self).view_model.message_vm.myself_view() == old(self).view_model.message_vm.myself_view()
            },
            event matches AppEvent::Input(InputEvent::ChangeStatus) ==> *final(self) == *old(self),
            event is Quit ==> !final(self).running && final(self).view_model == old(self).view_model,
            final(self).local_offset() == old(self).local_offset(),
    {
        match event {
            AppEvent::Input(input_event) => match input_event {
                InputEvent::MsgSending(message) => {
                    self.view_model.message_vm.add_msg(message);
                },
                InputEvent::MsgReceiving(message) => {
                    self.view_model.message_vm.add_msg(message);
                },
                InputEvent::PeersUpdating(_) => {},
                InputEvent::ChangeStatus => {},
            },
            AppEvent::Logging(_) => {},
            AppEvent::Quit => self.quit(),
        }
    }

    /// Handles the tick event of the terminal: nothing to update.
    pub fn tick(&self) {
    }

    /// Stops the screen.
    pub fn quit(&mut self)
        ensures
            !final(self).running,
            final(self).view_model == old(self).view_model,
            final(self).local_offset() == old(self).local_offset(),
    {
        self.running = false;
    }
}

} // verus!
