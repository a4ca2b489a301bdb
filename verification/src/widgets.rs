//! The console widget: a state machine over the input system that gathers
//! typed text while open and turns it into console commands.

use vstd::prelude::*;
use crate::{ConsoleCommandParameter, Framework, Handle, spec_keyword_of};
use crate::input::{
    InputSystem, MAX_SIGNAL_SLOTS_KM, Mapping, MethodKM, Mode, spec_consume, spec_fires,
    spec_slot_of, spec_typed_signals, spec_typed_string,
};

verus! {

/// Whether the console accepts typing.
#[derive(Clone, Copy, PartialEq, Eq, Structural, Debug)]
pub enum ConsoleState {
    Opened,
    Closed,
}

/// The console widget: its open-or-closed state, the text typed so far,
/// and the three mappings it listens on.
pub struct ConsoleWidget {
    state: ConsoleState,
    typing: String,
    input_open_console: Handle<Mapping>,
    input_submit: Handle<Mapping>,
    input_info: Handle<Mapping>,
}

/// The effect of one `ConsoleWidget::update` pass, given the widget, input
/// and framework states before the call. While closed, only the toggle
/// mapping is consumed, and opening switches the input to typing mode.
/// While open, a typing pass runs first; then a fired submit issues the
/// typed text as a command and clears it, a fired info probe issues the
/// `info` command, and a fired toggle closes the console and restores
/// normal mode.
pub open spec fn widget_update_post(
    pre: ConsoleWidget,
    pre_input: InputSystem,
    pre_fw: Framework,
    post: ConsoleWidget,
    post_input: InputSystem,
    post_fw: Framework,
    result: ConsoleState,
) -> bool {
    &&& post.spec_open_console() == pre.spec_open_console()
    &&& post.spec_submit() == pre.spec_submit()
    &&& post.spec_info() == pre.spec_info()
    &&& post_input.spec_mappings() == pre_input.spec_mappings()
    &&& post_input.spec_cursor() == pre_input.spec_cursor()
    &&& result == post.spec_state()
    &&& post_fw.spec_run() == pre_fw.spec_run()
    &&& post_fw.spec_save_load() == pre_fw.spec_save_load()
    &&& post_fw.spec_asset_path() == pre_fw.spec_asset_path()
    &&& post_fw.spec_fps() == pre_fw.spec_fps()
    &&& post_fw.spec_frames() == pre_fw.spec_frames()
    &&& post_fw.spec_frame_delta() == pre_fw.spec_frame_delta()
    &&& match pre.spec_state() {
        ConsoleState::Closed => {
            let slot = spec_slot_of(pre_input.spec_mappings()@[pre.spec_open_console()]);
            let fired = spec_fires(pre_input.spec_signals()[slot]);
            &&& post_input.spec_sps() == pre_input.spec_sps()
            &&& post_input.spec_signals() == pre_input.spec_signals().update(
                slot,
                spec_consume(pre_input.spec_signals()[slot]),
            )
            &&& post_input.spec_mode() == if fired {
                Mode::TypingNLS
            } else {
                pre_input.spec_mode()
            }
            &&& post.spec_state() == if fired {
                ConsoleState::Opened
            } else {
                ConsoleState::Closed
            }
            &&& post.spec_typing() == pre.spec_typing()
            &&& post_fw.spec_command() == pre_fw.spec_command()
        },
        ConsoleState::Opened => {
            let sigs0 = pre_input.spec_signals();
            let typing_pass = pre_input.spec_mode() is TypingNLS;
            let typed = if typing_pass {
                spec_typed_string(pre.spec_typing(), sigs0, MAX_SIGNAL_SLOTS_KM as int)
            } else {
                pre.spec_typing()
            };
            let sigs1 = if typing_pass {
                spec_typed_signals(sigs0, MAX_SIGNAL_SLOTS_KM as int)
            } else {
                sigs0
            };
            let submit_slot = spec_slot_of(pre_input.spec_mappings()@[pre.spec_submit()]);
            let submit_fired = spec_fires(sigs1[submit_slot]);
            let sigs2 = sigs1.update(submit_slot, spec_consume(sigs1[submit_slot]));
            let info_slot = spec_slot_of(pre_input.spec_mappings()@[pre.spec_info()]);
            let info_fired = spec_fires(sigs2[info_slot]);
            let sigs3 = sigs2.update(info_slot, spec_consume(sigs2[info_slot]));
            let open_slot = spec_slot_of(pre_input.spec_mappings()@[pre.spec_open_console()]);
            let open_fired = spec_fires(sigs3[open_slot]);
            let sigs4 = sigs3.update(open_slot, spec_consume(sigs3[open_slot]));
            &&& post_input.spec_sps() == pre_input.spec_sps()
            &&& post_input.spec_signals() == sigs4
            &&& post.spec_typing() == if submit_fired {
                Seq::<char>::empty()
            } else {
                typed
            }
            &&& post_fw.spec_command().spec_keyword() == if info_fired {
                spec_keyword_of("info"@)
            } else if submit_fired {
                spec_keyword_of(typed)
            } else {
                pre_fw.spec_command().spec_keyword()
            }
            &&& post_fw.spec_command().spec_parameters() == if info_fired || submit_fired {
                Seq::<ConsoleCommandParameter>::empty()
            } else {
                pre_fw.spec_command().spec_parameters()
            }
            &&& post.spec_state() == if open_fired {
                ConsoleState::Closed
            } else {
                ConsoleState::Opened
            }
            &&& post_input.spec_mode() == if open_fired {
                Mode::Normal
            } else {
                pre_input.spec_mode()
            }
        },
    }
}

impl ConsoleWidget {
    pub closed spec fn spec_state(&self) -> ConsoleState {
        self.state
    }

    pub closed spec fn spec_typing(&self) -> Seq<char> {
        self.typing@
    }

    pub closed spec fn spec_open_console(&self) -> int {
        self.input_open_console@
    }

    pub closed spec fn spec_submit(&self) -> int {
        self.input_submit@
    }

    pub closed spec fn spec_info(&self) -> int {
        self.input_info@
    }

    /// The widget's mapping handles point into the given input system.
    pub open spec fn handles_ok(&self, input: InputSystem) -> bool {
        &&& 0 <= self.spec_open_console() < input.spec_mappings()@.len()
        &&& 0 <= self.spec_submit() < input.spec_mappings()@.len()
        &&& 0 <= self.spec_info() < input.spec_mappings()@.len()
    }

    /// A fresh, closed console with empty text; registers its three
    /// mappings — toggle, info probe and submit — with the input system.
    pub fn new(input: &mut InputSystem) -> (widget: ConsoleWidget)
        requires
            old(input).wf(),
        ensures
            final(input).wf(),
            widget.spec_state() == ConsoleState::Closed,
            widget.spec_typing() == Seq::<char>::empty(),
            widget.handles_ok(*final(input)),
            widget.spec_open_console() == old(input).spec_mappings()@.len(),
            widget.spec_info() == old(input).spec_mappings()@.len() + 1,
            widget.spec_submit() == old(input).spec_mappings()@.len() + 2,
            final(input).spec_mappings()@.len() == old(input).spec_mappings()@.len() + 3,
            final(input).spec_mappings()@.take(old(input).spec_mappings()@.len() as int) == old(
                input,
            ).spec_mappings()@,
            final(input).spec_mappings()@[widget.spec_open_console()].spec_name()
                == "(GUI) Toggle Console"@,
            final(input).spec_mappings()@[widget.spec_open_console()].spec_default()
                == MethodKM::F1,
            final(input).spec_mappings()@[widget.spec_open_console()].spec_custom() is None,
            final(input).spec_mappings()@[widget.spec_info()].spec_name()
                == "(GUI) Print All Console Commands"@,
            final(input).spec_mappings()@[widget.spec_info()].spec_default() == MethodKM::TAB,
            final(input).spec_mappings()@[widget.spec_info()].spec_custom() is None,
            final(input).spec_mappings()@[widget.spec_submit()].spec_name()
                == "(GUI) Console Submit"@,
            final(input).spec_mappings()@[widget.spec_submit()].spec_default() == MethodKM::Enter,
            final(input).spec_mappings()@[widget.spec_submit()].spec_custom() is None,
            final(input).spec_mode() == old(input).spec_mode(),
            final(input).spec_signals() == old(input).spec_signals(),
            final(input).spec_sps() == old(input).spec_sps(),
            final(input).spec_cursor() == old(input).spec_cursor(),
    {
        let input_open_console = input.add_mapping(
            Mapping::new("(GUI) Toggle Console", MethodKM::F1),
        );
        let input_info = input.add_mapping(
            Mapping::new("(GUI) Print All Console Commands", MethodKM::TAB),
        );
        let input_submit = input.add_mapping(Mapping::new("(GUI) Console Submit", MethodKM::Enter));
        proof {
            assert(input.spec_mappings()@.take(old(input).spec_mappings()@.len() as int)
                =~= old(input).spec_mappings()@);
        }
        ConsoleWidget {
            state: ConsoleState::Closed,
            typing: String::new(),
            input_submit,
            input_open_console,
            input_info,
        }
    }

    /// Runs one console pass over the input: see `widget_update_post` for
    /// the exact effect on the widget, the input system and the issued
    /// command.
    pub fn update(&mut self, input: &mut InputSystem, framework: &mut Framework) -> (state:
        ConsoleState)
        requires
            old(input).wf(),
            old(self).handles_ok(*old(input)),
        ensures
            final(input).wf(),
            final(self).handles_ok(*final(input)),
            widget_update_post(
                *old(self),
                *old(input),
                *old(framework),
                *final(self),
                *final(input),
                *final(framework),
                state,
            ),
    {
        match self.state {
            ConsoleState::Closed => {
                if input.check_once(&self.input_open_console) {
                    input.mode(Mode::TypingNLS);
                    self.state = ConsoleState::Opened;
                }
                self.state
            },
            ConsoleState::Opened => {
                input.check_typing(&mut self.typing);
                if input.check_once(&self.input_submit) {
                    framework.command(self.typing.as_str());
                    self.typing = String::new();
                }
                if input.check_once(&self.input_info) {
                    framework.command("info");
                }
                if input.check_once(&self.input_open_console) {
                    input.mode(Mode::Normal);
                    self.state = ConsoleState::Closed;
                }
                self.state
            },
        }
    }
}

} // verus!
