use vstd::prelude::*;
use crate::messages::{
    msg_not_png, msg_png_to_png, msg_save_failed, not_png_message, png_to_png_message,
    save_failed_message,
};
use crate::suffix::{ends_with_png, spec_ends_with_png};

verus! {

/// What the caller must do after a click on "Convert": nothing, or one call
/// of the external conversion library with the two paths given here.
pub enum ConvertAction {
    /// No conversion is dispatched (the save dialog was cancelled, or the
    /// paths were rejected and an error is now shown).
    NoConversion,
    /// Convert `input` (not a PNG) into a PNG written at `output`.
    ToPng { input: String, output: String },
    /// Convert the PNG at `input` into another format written at `output`.
    FromPng { input: String, output: String },
}

/// The whole state of the converter window: the selected input file, the
/// destination chosen through the save dialog, and the error shown by the
/// modal dialog, if any.
pub struct AppState {
    /// Path of the file selected for conversion; `None` means nothing is
    /// selected.
    pub input_path: Option<String>,
    /// Path chosen by the user for the converted output; empty until a save
    /// dialog completes.
    pub output_file_path: String,
    /// When present, the modal error dialog with this message is rendered
    /// instead of the main panel.
    pub show_error: Option<String>,
}

impl AppState {
    /// Well-formedness: every transition that raises an error also clears the
    /// selected input, so an error never coexists with a selection.
    pub open spec fn inv(self) -> bool {
        self.show_error is Some ==> self.input_path is None
    }

    /// No input selected and no error shown.
    pub open spec fn is_idle(self) -> bool {
        self.input_path is None && self.show_error is None
    }

    /// An input is selected and no error is shown.
    pub open spec fn is_input_selected(self) -> bool {
        self.input_path is Some && self.show_error is None
    }

    /// The modal error dialog overrides all other rendering.
    pub open spec fn is_error(self) -> bool {
        self.show_error is Some
    }

    /// Decides what this frame renders: the modal error dialog when an error
    /// is present, the main panel otherwise — never both.
    pub fn shows_error_dialog(&self) -> (r: bool)
        ensures
            r == self.is_error(),
    {
        self.show_error.is_some()
    }

    /// The message of the error dialog currently shown.
    pub fn error_message(&self) -> (r: &String)
        requires
            self.is_error(),
        ensures
            r@ == self.show_error->0@,
    {
        match &self.show_error {
            Some(m) => m,
            None => unreached(),
        }
    }

    /// Outcome of the "Open file" dialog: a chosen path becomes the selected
    /// input; a cancelled dialog changes nothing.
    pub fn pick_input(&mut self, picked: Option<String>)
        requires
            old(self).show_error is None,
        ensures
            final(self).inv(),
            final(self).show_error is None,
            final(self).output_file_path == old(self).output_file_path,
            picked is Some ==> final(self).input_path == picked,
            picked is None ==> final(self).input_path == old(self).input_path,
    {
        match picked {
            Some(path) => {
                self.input_path = Some(path);
            }
            None => {}
        }
    }

    /// Outcome of a click on "Convert", fed with the result of the save
    /// dialog. Routes by the case-sensitive `.png` suffix of the two paths:
    /// a cancelled dialog and the two rejected suffix combinations raise an
    /// error; the two accepted combinations dispatch exactly one conversion
    /// and return to the idle panel. The selected input is cleared on every
    /// outcome.
    pub fn convert_clicked(&mut self, save_choice: Option<String>) -> (action: ConvertAction)
        requires
            old(self).is_input_selected(),
        ensures
            final(self).inv(),
            final(self).input_path is None,
            save_choice is None ==> ({
                &&& final(self).show_error is Some
                &&& final(self).show_error->0@ == save_failed_message()
                &&& final(self).output_file_path == old(self).output_file_path
                &&& action is NoConversion
            }),
            save_choice is Some ==> ({
                let inp = old(self).input_path->0;
                let out = save_choice->0;
                &&& final(self).output_file_path == out
                &&& (spec_ends_with_png(inp@) && spec_ends_with_png(out@)) ==> ({
                    &&& final(self).show_error is Some
                    &&& final(self).show_error->0@ == png_to_png_message()
                    &&& action is NoConversion
                })
                &&& (!spec_ends_with_png(inp@) && !spec_ends_with_png(out@)) ==> ({
                    &&& final(self).show_error is Some
                    &&& final(self).show_error->0@ == not_png_message()
                    &&& action is NoConversion
                })
                &&& (!spec_ends_with_png(inp@) && spec_ends_with_png(out@)) ==> ({
                    &&& final(self).show_error is None
                    &&& action == (ConvertAction::ToPng { input: inp, output: out })
                })
                &&& (spec_ends_with_png(inp@) && !spec_ends_with_png(out@)) ==> ({
                    &&& final(self).show_error is None
                    &&& action == (ConvertAction::FromPng { input: inp, output: out })
                })
            }),
    {
        let input = match self.input_path.take() {
            Some(p) => p,
            None => unreached(),
        };
        match save_choice {
            None => {
                self.show_error = Some(msg_save_failed());
                ConvertAction::NoConversion
            }
            Some(out) => {
                let out_is_png: bool = ends_with_png(out.as_str());
                let in_is_png: bool = ends_with_png(input.as_str());
                self.output_file_path = out;
                if out_is_png && in_is_png {
                    self.show_error = Some(msg_png_to_png());
                    ConvertAction::NoConversion
                } else if out_is_png {
                    let output = self.output_file_path.clone();
                    ConvertAction::ToPng { input, output }
                } else if in_is_png {
                    let output = self.output_file_path.clone();
                    ConvertAction::FromPng { input, output }
                } else {
                    self.show_error = Some(msg_not_png());
                    ConvertAction::NoConversion
                }
            }
        }
    }

    /// Outcome of dismissing the modal error dialog: back to the idle panel,
    /// with no residual input or output path.
    pub fn dismiss_error(&mut self)
        requires
            old(self).is_error(),
        ensures
            final(self).inv(),
            final(self).is_idle(),
            final(self).output_file_path@ == Seq::<char>::empty(),
    {
        self.show_error = None;
        self.input_path = None;
        self.output_file_path = String::new();
    }
}

impl Default for AppState {
    /// The initial state: idle, with an empty output path.
    fn default() -> (s: Self)
        ensures
            s.inv(),
            s.is_idle(),
            s.output_file_path@ == Seq::<char>::empty(),
    {
        AppState { output_file_path: String::new(), input_path: None, show_error: None }
    }
}

} // verus!
