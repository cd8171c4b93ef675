//! Feeding bytes to the terminal.
use crate::terminal::csi::first_value;
use crate::terminal::emulator::TerminalEmulator;
use crate::terminal::screen::Screen;
use crate::terminal::vt::{
    actions_view, params_nonempty, params_view, parse, vte_actions, TermAction,
};
use vstd::prelude::*;

verus! {

broadcast use vstd::std_specs::hash::group_hash_axioms;

/// Whether each parameter has at least one value.
fn all_nonempty(params: &Vec<Vec<u16>>) -> (b: bool)
    ensures
        b == params_nonempty(params_view(params@)),
{
    let ghost view = params_view(params@);
    let mut i: usize = 0;
    while i < params.len()
        invariant
            i <= params@.len(),
            view == params_view(params@),
            forall|k: int| 0 <= k < i ==> (#[trigger] view[k]).len() > 0,
        decreases params@.len() - i,
    {
        if params[i].len() == 0 {
            assert(view[i as int].len() == 0);
            return false;
        }
        i = i + 1;
    }
    true
}

impl Screen {
    /// The terminal after bytes, as far as it can carry out what they ask for.
    pub open spec fn given(self, bytes: Seq<u8>) -> Screen {
        (Screen { fed: self.fed.push(bytes), ..self }).run(vte_actions(self.fed, bytes))
    }

    /// Whether the terminal can carry out everything that bytes ask for.
    pub open spec fn takes(self, bytes: Seq<u8>) -> bool {
        (Screen { fed: self.fed.push(bytes), ..self }).accepts_all(vte_actions(self.fed, bytes))
    }
}

impl TerminalEmulator {
    /// Whether the cursor's column can be read.
    fn cursor_readable(&self) -> (b: bool)
        ensures
            b == self@.cursor_on_line(),
    {
        self.cursor_x == 0 || self.cursor_x < self.cols
    }

    /// Whether the terminal can carry out an action in its present state.
    pub fn can_perform(&self, action: &TermAction) -> (b: bool)
        requires
            self@.wf(),
        ensures
            b == self@.accepts(action@),
    {
        match action {
            TermAction::Print(_) => true,
            TermAction::Execute(byte) => {
                let wraps_back: bool = *byte == 8 && self.cursor_x == 0 && self.cursor_y > 0
                    && self.grid[self.cursor_y].is_wrapped;
                !wraps_back || self.cols > 0
            },
            TermAction::Csi { params, intermediates, ignore, action } => {
                if *ignore || intermediates.len() > 0 {
                    return true;
                }
                let c: char = *action;
                let param1: u16 = first_value(params, 0, 0);
                if c == 'X' {
                    if let Some(prompt_y) = self.history_prompt_y {
                        if self.cursor_y >= prompt_y {
                            return !self.history_printed_lines.contains(&self.cursor_y)
                                || self.cursor_readable();
                        }
                    }
                }
                if c == '@' || c == 'X' || c == 'P' {
                    self.cursor_readable()
                } else if c == 'J' || c == 'K' {
                    param1 != 0 || self.cursor_readable()
                } else if c == 'C' || c == 'H' || c == 'f' {
                    self.cols > 0
                } else if c == 'm' {
                    all_nonempty(params)
                } else {
                    true
                }
            },
        }
    }

    /// Carries out an action.
    pub fn perform(&mut self, action: &TermAction)
        requires
            old(self)@.wf(),
            old(self)@.accepts(action@),
        ensures
            final(self)@ == old(self)@.perform(action@),
            final(self)@.wf(),
    {
        match action {
            TermAction::Print(c) => {
                self.print(*c);
            },
            TermAction::Execute(byte) => {
                self.execute(*byte);
            },
            TermAction::Csi { params, intermediates, ignore, action } => {
                self.csi_dispatch(params, intermediates, *ignore, *action);
            },
        }
    }

    /// Carries out actions in order, up to the first that the terminal cannot carry out. Says
    /// whether all of them were.
    pub fn perform_all(&mut self, actions: &Vec<TermAction>) -> (all: bool)
        requires
            old(self)@.wf(),
        ensures
            final(self)@ == old(self)@.run(actions_view(actions@)),
            final(self)@.wf(),
            all == old(self)@.accepts_all(actions_view(actions@)),
    {
        let ghost before = self@;
        let ghost view = actions_view(actions@);
        let mut i: usize = 0;
        assert(view.skip(0) =~= view);
        while i < actions.len()
            invariant
                i <= actions@.len(),
                view == actions_view(actions@),
                before == old(self)@,
                self@.wf(),
                before.run(view) == self@.run(view.skip(i as int)),
                before.accepts_all(view) == self@.accepts_all(view.skip(i as int)),
            decreases actions@.len() - i,
        {
            let ghost rest = view.skip(i as int);
            assert(rest[0] == actions@[i as int]@);
            assert(rest.drop_first() =~= view.skip(i + 1));
            if !self.can_perform(&actions[i]) {
                return false;
            }
            self.perform(&actions[i]);
            i = i + 1;
        }
        true
    }

    /// Feeds bytes to the terminal. The result is false where the input asks for something that
    /// the terminal cannot carry out; what came before it has been carried out.
    pub fn process_bytes(&mut self, bytes: &[u8]) -> (all: bool)
        requires
            old(self)@.wf(),
        ensures
            final(self)@ == old(self)@.given(bytes@),
            final(self)@.wf(),
            all == old(self)@.takes(bytes@),
    {
        let actions = parse(&mut self.parser, bytes);
        self.perform_all(&actions)
    }
}

} // verus!
