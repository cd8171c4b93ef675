//! Bytes to terminal actions, by way of the `vte` parser.
use vstd::prelude::*;

verus! {

/// What the byte stream asks of the terminal.
#[derive(Clone, Debug)]
pub enum TermAction {
    /// Put a character at the cursor.
    Print(char),
    /// Carry out a control code.
    Execute(u8),
    /// Carry out a control sequence. Each parameter is a list of sub-parameters.
    Csi { params: Vec<Vec<u16>>, intermediates: Vec<u8>, ignore: bool, action: char },
}

/// A terminal action as a mathematical value.
#[verifier::ext_equal]
pub enum Action {
    Print(char),
    Execute(u8),
    Csi { params: Seq<Seq<u16>>, intermediates: Seq<u8>, ignore: bool, action: char },
}

/// A list of parameter lists as a mathematical value.
pub open spec fn params_view(params: Seq<Vec<u16>>) -> Seq<Seq<u16>> {
    Seq::new(params.len(), |i: int| params[i]@)
}

impl View for TermAction {
    type V = Action;

    open spec fn view(&self) -> Action {
        match *self {
            TermAction::Print(c) => Action::Print(c),
            TermAction::Execute(b) => Action::Execute(b),
            TermAction::Csi { params, intermediates, ignore, action } => Action::Csi {
                params: params_view(params@),
                intermediates: intermediates@,
                ignore,
                action,
            },
        }
    }
}

/// A list of actions as a mathematical value.
pub open spec fn actions_view(actions: Seq<TermAction>) -> Seq<Action> {
    Seq::new(actions.len(), |i: int| actions[i]@)
}

/// The `vte` escape-sequence parser.
#[verifier::external_type_specification]
#[verifier::external_body]
pub struct ExParser<const OSC_RAW_BUF_SIZE: usize>(vte::Parser<OSC_RAW_BUF_SIZE>);

/// The parameters that the `vte` parser hands to its performer.
#[verifier::external_type_specification]
#[verifier::external_body]
pub struct ExParams(vte::Params);

/// The pieces of input that a parser has been given since it was made, in order. A parser's
/// behaviour is settled by them.
pub uninterp spec fn parser_fed(parser: vte::Parser) -> Seq<Seq<u8>>;

/// The actions that a parser reports for `bytes` when it has been given the pieces `fed` before.
pub uninterp spec fn vte_actions(fed: Seq<Seq<u8>>, bytes: Seq<u8>) -> Seq<Action>;

/// The parameter lists that a `vte::Params` value holds.
pub uninterp spec fn params_held(params: vte::Params) -> Seq<Seq<u16>>;

/// Whether each parameter of a control sequence has at least one sub-parameter.
pub open spec fn params_nonempty(params: Seq<Seq<u16>>) -> bool {
    forall|i: int| 0 <= i < params.len() ==> (#[trigger] params[i]).len() > 0
}

/// Calls `vte::Params::iter` and copies each item: the lists that the value holds, in order. The
/// parser counts every parameter's first value as a sub-parameter, so none is empty.
#[verifier::external_body]
fn param_lists(params: &vte::Params) -> (lists: Vec<Vec<u16>>)
    ensures
        params_view(lists@) == params_held(*params),
        params_nonempty(params_view(lists@)),
{
    params.iter().map(|param| param.to_vec()).collect()
}

/// Calls `vte::Parser::new`: a parser that has been given nothing.
#[verifier::external_body]
pub(crate) fn new_parser() -> (parser: vte::Parser)
    ensures
        parser_fed(parser) == Seq::<Seq<u8>>::empty(),
{
    vte::Parser::new()
}

/// Calls `vte::Parser::advance` with an empty log. What the log holds afterwards is settled by
/// `bytes` and by what the parser was given before; the parser has then been given `bytes` too.
/// Every control sequence comes with parameters that each hold a value.
#[verifier::external_body]
fn advance_parser(parser: &mut vte::Parser, bytes: &[u8]) -> (log: ActionLog)
    ensures
        parser_fed(*final(parser)) == parser_fed(*old(parser)).push(bytes@),
        actions_view(log.actions@) == vte_actions(parser_fed(*old(parser)), bytes@),
        forall|i: int|
            0 <= i < log.actions@.len() ==> action_params_nonempty((#[trigger] log.actions@[i])@),
{
    let mut log = ActionLog { actions: Vec::new() };
    parser.advance(&mut log, bytes);
    log
}

/// Whether an action, if it is a control sequence, has a value in each parameter.
pub open spec fn action_params_nonempty(action: Action) -> bool {
    match action {
        Action::Csi { params, .. } => params_nonempty(params),
        _ => true,
    }
}

/// A performer that writes down what the parser reports.
pub struct ActionLog {
    pub actions: Vec<TermAction>,
}

impl vte::Perform for ActionLog {
    fn print(&mut self, c: char)
        ensures
            final(self).actions@ == old(self).actions@.push(TermAction::Print(c)),
    {
        self.actions.push(TermAction::Print(c));
    }

    fn execute(&mut self, byte: u8)
        ensures
            final(self).actions@ == old(self).actions@.push(TermAction::Execute(byte)),
    {
        self.actions.push(TermAction::Execute(byte));
    }

    fn csi_dispatch(
        &mut self,
        params: &vte::Params,
        intermediates: &[u8],
        ignore: bool,
        action: char,
    )
        ensures
            final(self).actions@.len() == old(self).actions@.len() + 1,
            final(self).actions@.drop_last() == old(self).actions@,
            final(self).actions@.last()@ == (Action::Csi {
                params: params_held(*params),
                intermediates: intermediates@,
                ignore,
                action,
            }),
    {
        let lists = param_lists(params);
        let mut collected: Vec<u8> = Vec::new();
        collected.extend_from_slice(intermediates);
        assert(collected@ =~= intermediates@);
        self.actions.push(
            TermAction::Csi { params: lists, intermediates: collected, ignore, action },
        );
        assert(self.actions@.drop_last() =~= old(self).actions@);
    }
}

/// The actions that `bytes` stand for, given what `parser` has seen so far.
pub fn parse(parser: &mut vte::Parser, bytes: &[u8]) -> (actions: Vec<TermAction>)
    ensures
        parser_fed(*final(parser)) == parser_fed(*old(parser)).push(bytes@),
        actions_view(actions@) == vte_actions(parser_fed(*old(parser)), bytes@),
        forall|i: int|
            0 <= i < actions@.len() ==> action_params_nonempty((#[trigger] actions@[i])@),
{
    advance_parser(parser, bytes).actions
}

} // verus!
