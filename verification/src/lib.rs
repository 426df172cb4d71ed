//! Assembly of a shader pipeline against an OpenGL driver: shaders are
//! compiled, linked into a program, and the program is put in use and given
//! its uniform values.
//!
//! The driver is kept at arm's length. No operation of this crate calls it.
//! Each answers with the [`driver::DriverCall`] that is to be made, and what
//! a call needs an answer for is done in steps: [`shader::Shader::new`] and
//! [`program::Program::new`] begin a build and name its first call, and the
//! build takes the [`driver::DriverReply`] to each call and names the next,
//! until it ends with its result. The caller owns the rendering context and
//! carries the calls out on the thread that the context belongs to.
//!
//! What a build does is laid down in [`compile`] and [`link`] as a function
//! of what the driver answers, and the builds are proved to follow it. Proved
//! of every course that a build can take: it ends; it yields an object
//! exactly where the driver reported success, and the driver's diagnostic
//! otherwise; and it deletes every object that it created and does not hand
//! to its caller. A link that succeeds also deletes the shaders that went
//! into the program; one that fails deletes none, and hands them back.

pub mod compile;
pub mod diagnostic;
pub mod driver;
pub mod ledger;
pub mod link;
pub mod program;
pub mod shader;
