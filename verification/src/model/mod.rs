//! View models of the terminal front end.

use vstd::prelude::*;

pub mod input_view_model;
pub mod log_view_model;
pub mod message_view_model;
pub mod peer_view_model;

use crate::model::input_view_model::{InputMode, InputViewModel};
use crate::model::log_view_model::LogViewModel;
use crate::model::message_view_model::{opt_view, Message, MessageViewModel};
use crate::text::views;
use crate::model::peer_view_model::PeerViewModel;

verus! {

/// Everything the chat screen shows.
#[derive(Clone, Debug)]
pub struct AppViewModel {
    pub input_vm: InputViewModel,
    pub message_vm: MessageViewModel,
    pub peer_vm: PeerViewModel,
    pub log_vm: LogViewModel,
}

impl AppViewModel {
    /// An empty screen of user `peer_id`.
    pub fn new(peer_id: String) -> (m: AppViewModel)
        ensures
            m.input_vm.myself_view() == peer_id@,
            m.input_vm.input@ == Seq::<char>::empty(),
            m.input_vm.input_mode == InputMode::Normal,
            m.input_vm.character_index == 0,
            m.message_vm.myself_view() == peer_id@,
            m.message_vm.messages_view() == Seq::<Message>::empty(),
            m.peer_vm.wf(),
            m.peer_vm@ == Set::<Seq<char>>::empty(),
            m.log_vm.logs_view() == Seq::<crate::model::log_view_model::Log>::empty(),
    {
        let id = crate::text::copy_string(&peer_id);
        AppViewModel {
            input_vm: InputViewModel::new(id),
            message_vm: MessageViewModel::new(peer_id),
            peer_vm: PeerViewModel::default(),
            log_vm: LogViewModel::default(),
        }
    }
}

/// What the scroll bar of a list shows: the number of lines of content and
/// the position scrolled to.
#[derive(Clone, Copy, Debug, PartialEq, Eq, Structural, Default)]
pub struct ScrollbarModel {
    pub content_length: usize,
    pub position: usize,
}

/// An item of a list that can be shown as lines of text.
pub trait ViewModelFmt {
    /// The lines that show the item, and the extra text shown after the last line.
    spec fn shown(&self) -> (Seq<Seq<char>>, Option<Seq<char>>);

    /// The lines of the item (at least one), and an extra text shown after the last line.
    fn formart(&self) -> (r: (Vec<String>, Option<String>))
        ensures
            r.0@.len() >= 1,
            (views(r.0@), opt_view(r.1)) == self.shown(),
    ;
}

/// A list that follows its end as items arrive, unless the user scrolls.
pub trait AutoScrollableViewModel {
    type Msg: ViewModelFmt;

    /// The line the list is scrolled to.
    spec fn scroll_pos(&self) -> usize;

    /// The position that the list's scroll bar shows.
    spec fn scrollbar_pos(&self) -> usize;

    /// Whether the list follows its end.
    spec fn at_end(&self) -> bool;

    /// The items of the list.
    spec fn msgs(&self) -> Seq<Self::Msg>;

    fn get_inner_msgs(&self) -> (r: &Vec<Self::Msg>)
        ensures
            r@ == self.msgs(),
    ;

    fn get_vertical_scroll(&self) -> (p: usize)
        ensures
            p == self.scroll_pos(),
    ;

    /// Makes the list follow its end.
    fn vertical_scroll_to_end(&mut self)
        ensures
            final(self).at_end(),
            final(self).scroll_pos() == old(self).scroll_pos(),
            final(self).scrollbar_pos() == old(self).scrollbar_pos(),
            final(self).msgs() == old(self).msgs(),
    ;

    fn get_vertical_scroll_at_end(&self) -> (b: bool)
        ensures
            b == self.at_end(),
    ;

    /// Stops following the end of the list.
    fn reset_vertical_scroll_at_end(&mut self)
        ensures
            !final(self).at_end(),
            final(self).scroll_pos() == old(self).scroll_pos(),
            final(self).scrollbar_pos() == old(self).scrollbar_pos(),
            final(self).msgs() == old(self).msgs(),
    ;

    /// Scrolls to line `pos`, and moves the scroll bar there.
    fn vertical_scroll_to(&mut self, pos: usize)
        ensures
            final(self).scroll_pos() == pos,
            final(self).scrollbar_pos() == pos,
            final(self).at_end() == old(self).at_end(),
            final(self).msgs() == old(self).msgs(),
    ;
}

} // verus!
