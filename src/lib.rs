//! Native child windows for embedded audio-plugin editors, reduced to their verified core:
//! the error taxonomy, pointer and button normalization, FIFO event delivery, the window
//! lifecycle, and reference counting of the shared window class.
use vstd::prelude::*;

pub mod error;
pub mod event;
pub mod input;
pub mod text;
pub mod window;
pub mod window_class;

pub use error::{format_last_error, wrap_last_error, Backend, ErrorKind, SetupError};
pub use event::{convert_mouse_button_detail, MouseButton, Origin, Ratio, WindowEvent};
pub use input::{decode_win32_message, translate, CaptureAction, Notification};
pub use window::{setup, validate_setup, EditorWindow, NativeFailure, TeardownStep};
pub use window_class::WindowClassRegistry;

verus! {

} // verus!
