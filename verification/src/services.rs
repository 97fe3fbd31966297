//! What the routes of the server decide about the clipboard, the upload
//! folder and the audio folders, apart from the input and output itself.

pub mod audio;
pub mod clipboard;
pub mod files;
