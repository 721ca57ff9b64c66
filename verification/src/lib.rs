//! Display-oriented facts about the host, as short strings.
//!
//! Every function here is a pure step from plain values that the caller has
//! read from the operating system to the line that is shown for them: the
//! system name and version, the user and host, the shell the program was
//! started from, disk and memory usage, and the time the machine has been up.
//! Querying the operating system itself is left to the caller.

pub mod ancestry;
pub mod colors;
pub mod error;
pub mod release;
pub mod system;
pub mod text;
pub mod units;
pub mod uptime;
