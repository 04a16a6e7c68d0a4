//! Focus transfer, synthetic text insertion and the screen capture → crop →
//! recognition sequence of a desktop translation tool, as verified decision
//! logic. The operating system calls themselves are made by the host; this
//! crate decides what is called, in which order, and what each outcome means.

pub mod capture;
pub mod crop;
pub mod exclusion;
pub mod focus;
pub mod input;
pub mod ocr;
pub mod pipeline;
pub mod recognition;
pub mod text;
pub mod window;
