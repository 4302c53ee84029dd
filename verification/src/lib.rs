//! The logic of a coding assistant's command runner and of the terminal
//! front end around it, with contracts that Verus proves.
//!
//! The runner: [`exec`] picks the spawner for a command, decides what ends
//! the wait for it and classifies its exit; [`stream`] drains its output,
//! forwarding every chunk and keeping a bounded prefix; [`exit_status`]
//! decodes how it ended. The tools offered to the model are laid out in
//! [`openai_tools`].
//!
//! The front end: [`textarea`] is the editing buffer, with [`input`] for its
//! keys, [`wrap`], [`graphemes`], [`words`] and [`text`] for lines, columns,
//! words and character boundaries; [`bottom_pane`] decides what the pane
//! below the chat shows and where; [`onboarding`] and [`startup`] hold the
//! decisions taken before the chat begins.

pub mod bottom_pane;
pub mod error;
pub mod exec;
pub mod exit_status;
pub mod graphemes;
pub mod input;
pub mod onboarding;
pub mod openai_tools;
pub mod protocol;
pub mod startup;
pub mod stream;
pub mod text;
pub mod textarea;
pub mod words;
pub mod wrap;
