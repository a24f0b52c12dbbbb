//! Terminal UI toolkit core.
//!
//! The graphics layer picks a backend from the terminal environment and
//! encodes pixel buffers for it: Kitty graphics commands (direct, or through
//! tmux with Unicode placeholders), sixel bands, shade glyphs, or raw bytes
//! for the Linux framebuffer. Around it sit the frame renderer, terminal
//! context, layout, colours and styles, and the retained UI models: scroll
//! views, lists, text input, command line, focus, modal editing and slots.
//!
//! All output is produced as bytes or values; writing to the terminal, the
//! framebuffer device or a subprocess is left to the caller.

pub mod b64;
pub mod escape;
pub mod strings;

pub mod blocks;
pub mod graphics;
pub mod image_helpers;
pub mod kitty;
pub mod pane;
pub mod sixel;

pub mod render;
pub mod terminal;

pub mod color;
pub mod i18n;
pub mod layout;
pub mod style;
pub mod theme;

pub mod bar;
pub mod command_palette;
pub mod event;
pub mod focus;
pub mod graphics_components;
pub mod list;
pub mod modal;
pub mod popup;
pub mod scrollable;
pub mod slots;
pub mod text;
pub mod text_input;

pub use command_palette::{CommandExecutor, CommandMode, CommandPalette, CommandResult};
pub use event::{Event, EventHandler, Key};
pub use focus::{FocusDirection, FocusManager, FocusableInfo};
pub use graphics::{DetectEnv, GraphicsBackend, ImageRenderer, RenderError, TmuxPaneOffset};
pub use graphics_components::{Animation, Image, ImageData};
pub use i18n::{AccessibilityRole, Locale, TextDirection};
pub use layout::Rect;
pub use list::{List, SelectionMode};
pub use modal::{KeyResult, ModalHandler, ModalState, Mode, Motion, Operator, SearchDirection, VisualMode};
pub use popup::{PopupBorderStyle, PopupPosition, PopupResult, SplitDirection};
pub use render::{DirtyRegion, Renderer};
pub use scrollable::ScrollableView;
pub use slots::{header_slots, priority, status_slots, RegionSlots, SlotContent, Slots};
pub use style::{Selector, Style, StyleProperty, StyleRule, StyleSheet, Styleable};
pub use terminal::{TerminalCapabilities, TerminalContext, TerminalGeometry, TmuxPaneInfo};
pub use text_input::TextInput;
pub use theme::{BorderChars, BorderStyle};
pub use color::Color;
