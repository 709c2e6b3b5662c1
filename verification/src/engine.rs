//! The per-event engine. For every inbound chat event it first delivers
//! the event to every registered extension in insertion order and turns
//! their replies into outbound messages, then interprets the same event
//! against the admin command grammar — both always happen, independently,
//! for the same event. A `load` command drives the extension loader and
//! either appends exactly one fully initialized extension to the registry
//! or reports the error back to the event's target; the registry is never
//! touched in any other way.
//!
//! Admin commands carry no authorization check: any sender able to
//! message the host can issue them, `load` included, which executes
//! native code in the host process. That is a deliberate policy decision
//! of this design, kept here rather than silently changed; a deployment
//! that wants gating must do it at the protocol boundary before handing
//! the event in.

use vstd::prelude::*;

use crate::action::{
    Action, ActionView, action_views, spec_command_action, spec_reply_actions, reply_views,
    command_action, reply_actions,
};
use crate::command::{AdminCommand, CommandView, spec_parse, parse_admin_command};
use crate::extension::{LoadedExtension, Plugin};
use crate::ChatEvent;
use crate::loader::{LoadError, LoadErrorView, ModuleHost, spec_error_text, load};
use crate::registry::{Registry, grows_from};

verus! {

/// What one event produced: the outbound actions of the dispatch pass
/// (one message per extension reply, in dispatch order), then those of
/// the admin command, if any. The caller performs them in this order
/// through the protocol boundary.
pub struct EventOutput {
    /// Relays of extension replies, all addressed to the event's target.
    pub replies: Vec<Action>,
    /// The outbound side of the admin command: its one action, or the
    /// report of a failed load, or nothing.
    pub admin: Vec<Action>,
}

/// Calls every registered extension's handler for `event`, in insertion
/// order, and collects one reply slot per extension, in the same order.
/// What each extension answers is its own untrusted business: nothing is
/// assumed about the collected values. Handler failures are deliberately
/// not isolated: a handler that panics aborts the remaining pass.
pub fn dispatch<H, E: Plugin>(reg: &Registry<H, E>, event: &ChatEvent) -> (rs: Vec<Option<String>>)
    ensures
        rs@.len() == reg@.len(),
{
    let mut rs: Vec<Option<String>> = Vec::new();
    let mut i: usize = 0;
    let n = reg.len();
    while i < n
        invariant
            n == reg@.len(),
            i <= n,
            rs@.len() == i,
        decreases n - i,
    {
        let le = reg.get(i);
        rs.push(
            le.instance.process_privmsg(
                event.source.as_str(),
                event.target.as_str(),
                event.message.as_str(),
            ),
        );
        i = i + 1;
    }
    rs
}

proof fn lemma_reply_actions_shape(target: Seq<char>, rs: Seq<Option<Seq<char>>>)
    ensures
        spec_reply_actions(target, rs).len() <= rs.len(),
        forall|i: int|
            0 <= i < spec_reply_actions(target, rs).len() ==> (#[trigger] spec_reply_actions(
                target,
                rs,
            )[i] matches ActionView::SendMessage { target: t, .. } && t == target),
    decreases rs.len(),
{
    if rs.len() != 0 {
        lemma_reply_actions_shape(target, rs.skip(1));
    }
}

/// What the admin side of one event may produce. `parsed` is what the
/// grammar made of the event's message, `grew` whether the registry
/// gained an entry, and `admin` the views of the admin actions: no
/// command and an unrecognized command produce nothing; a recognized
/// command produces exactly its one action; a `load` either grows the
/// registry and produces nothing, or leaves it alone and reports one
/// load error to the event's target.
pub open spec fn spec_admin_ok(
    parsed: Option<CommandView>,
    event_target: Seq<char>,
    grew: bool,
    admin: Seq<ActionView>,
) -> bool {
    match parsed {
        None => admin == Seq::<ActionView>::empty() && !grew,
        Some(CommandView::Load { .. }) => if grew {
            admin == Seq::<ActionView>::empty()
        } else {
            exists|e: LoadErrorView|
                admin == seq![
                    ActionView::SendMessage { target: event_target, text: spec_error_text(e) },
                ]
        },
        Some(c) => !grew && admin == (match spec_command_action(c) {
            Some(a) => seq![a],
            None => Seq::<ActionView>::empty(),
        }),
    }
}

/// Applies one load result to the registry: a success appends exactly
/// the loaded composite and reports nothing; a failure leaves the
/// registry untouched and reports exactly the error's description,
/// addressed to `target`. Either way the registry keeps every entry it
/// had.
pub fn apply_load_result<H, E>(
    reg: &mut Registry<H, E>,
    target: &str,
    r: Result<LoadedExtension<H, E>, LoadError>,
) -> (act: Option<Action>)
    ensures
        match r {
            Ok(le) => final(reg)@ == old(reg)@.push(le) && act is None,
            Err(e) => final(reg)@ == old(reg)@ && (act matches Some(a) && a@ == (ActionView::SendMessage {
                target: target@,
                text: spec_error_text(e@),
            })),
        },
        grows_from(old(reg)@, final(reg)@),
{
    match r {
        Ok(le) => {
            reg.add(le);
            None
        },
        Err(e) => {
            let text = e.describe();
            Some(Action::SendMessage { target: String::from_str(target), text })
        },
    }
}

/// Processes one inbound event completely: the dispatch pass over the
/// registry as it stood when the event arrived, then the admin command.
/// The registry only ever grows, by at most the one extension a
/// successful `load` produced; a newly loaded extension is first reached
/// by the next event's dispatch pass.
pub fn process_event<L: ModuleHost>(
    host: &L,
    reg: &mut Registry<L::Handle, L::Inst>,
    prefix: &str,
    event: &ChatEvent,
) -> (out: EventOutput) where L::Inst: Plugin
    ensures
        grows_from(old(reg)@, final(reg)@),
        final(reg)@.len() <= old(reg)@.len() + 1,
        final(reg)@.len() > old(reg)@.len() ==> spec_parse(
            prefix@,
            event.message@,
        ) matches Some(CommandView::Load { .. }),
        exists|rs: Seq<Option<Seq<char>>>|
            rs.len() == old(reg)@.len() && action_views(out.replies@) == spec_reply_actions(
                event.target@,
                rs,
            ),
        out.replies@.len() <= old(reg)@.len(),
        forall|i: int|
            0 <= i < out.replies@.len() ==> (#[trigger] out.replies@[i]@
                matches ActionView::SendMessage { target: t, .. } && t == event.target@),
        spec_admin_ok(
            spec_parse(prefix@, event.message@),
            event.target@,
            final(reg)@.len() > old(reg)@.len(),
            action_views(out.admin@),
        ),
{
    let replies = dispatch(reg, event);
    let reply_acts = reply_actions(event.target.as_str(), &replies);
    proof {
        lemma_reply_actions_shape(event.target@, reply_views(replies@));
        assert(reply_views(replies@).len() == replies@.len());
        assert forall|i: int| 0 <= i < reply_acts@.len() implies #[trigger] reply_acts@[i]@
            matches ActionView::SendMessage { target: t, .. } && t == event.target@ by {
            assert(reply_acts@[i]@ == action_views(reply_acts@)[i]);
        }
    }
    let mut admin: Vec<Action> = Vec::new();
    match parse_admin_command(prefix, event.message.as_str()) {
        None => {
            proof {
                assert(action_views(admin@) =~= Seq::<ActionView>::empty());
            }
        },
        Some(cmd) => match cmd {
            AdminCommand::Load { path } => {
                let r = load(host, path.as_str());
                let ghost gr = r;
                match apply_load_result(reg, event.target.as_str(), r) {
                    None => {
                        proof {
                            assert(action_views(admin@) =~= Seq::<ActionView>::empty());
                        }
                    },
                    Some(a) => {
                        let ghost av = a@;
                        admin.push(a);
                        proof {
                            assert(action_views(admin@) =~= seq![av]);
                            match gr {
                                Err(e) => {
                                    assert(action_views(admin@) == seq![
                                        ActionView::SendMessage {
                                            target: event.target@,
                                            text: spec_error_text(e@),
                                        },
                                    ]);
                                },
                                Ok(_) => {},
                            }
                        }
                    },
                }
            },
            other => {
                match command_action(&other) {
                    Some(a) => {
                        let ghost av = a@;
                        admin.push(a);
                        proof {
                            assert(action_views(admin@) =~= seq![av]);
                        }
                    },
                    None => {
                        proof {
                            assert(action_views(admin@) =~= Seq::<ActionView>::empty());
                        }
                    },
                }
            },
        },
    }
    proof {
        let ghost w = reply_views(replies@);
        assert(w.len() == old(reg)@.len() && action_views(reply_acts@) == spec_reply_actions(
            event.target@,
            w,
        ));
    }
    EventOutput { replies: reply_acts, admin }
}

} // verus!
