//! The child's command line and the diagnostics of a failed start.
//!
//! The server is started as `java -jar <payload> -picoweb:<port>`; the
//! interpreter path is chosen in `paths`, while this module builds the
//! argument list and the error messages a failed start returns. The spawn
//! itself is an operating-system call made by the embedding application.

use vstd::prelude::*;
use crate::text::dec_digits;
use crate::text::u16_to_string;

verus! {

/// The picoweb directive telling the server which port to serve on.
pub open spec fn picoweb_arg_of(port: int) -> Seq<char> {
    "-picoweb:"@ + dec_digits(port)
}

/// Builds the picoweb directive for `port`.
pub fn picoweb_arg(port: u16) -> (r: String)
    ensures
        r@ == picoweb_arg_of(port as int),
{
    String::from_str("-picoweb:").concat(u16_to_string(port).as_str())
}

/// The argument list the interpreter is launched with: run the payload as a
/// jar and serve on `port`.
pub fn build_launch_args(jar_path: &str, port: u16) -> (args: Vec<String>)
    ensures
        args.len() == 3,
        args[0]@ == "-jar"@,
        args[1]@ == jar_path@,
        args[2]@ == picoweb_arg_of(port as int),
{
    let mut args: Vec<String> = Vec::new();
    args.push(String::from_str("-jar"));
    args.push(String::from_str(jar_path));
    args.push(picoweb_arg(port));
    args
}

/// The error a start returns when the payload cannot be located.
pub open spec fn jar_not_found_msg() -> Seq<char> {
    "PlantUML JAR not found. Please ensure plantuml.jar is in the resources folder."@
}

/// Builds the payload-not-found diagnostic.
pub fn jar_not_found_error() -> (r: String)
    ensures
        r@ == jar_not_found_msg(),
{
    String::from_str("PlantUML JAR not found. Please ensure plantuml.jar is in the resources folder.")
}

/// The error a start returns when the operating system refuses to spawn the
/// child, wrapping the system's own message in `detail`.
pub open spec fn spawn_failure_msg(detail: Seq<char>) -> Seq<char> {
    "Failed to start PlantUML server: "@ + detail + ". Make sure Java is installed."@
}

/// Builds the spawn-failure diagnostic around the system's message.
pub fn spawn_failure_error(detail: &str) -> (r: String)
    ensures
        r@ == spawn_failure_msg(detail@),
{
    String::from_str("Failed to start PlantUML server: ").concat(detail).concat(
        ". Make sure Java is installed.",
    )
}

} // verus!
