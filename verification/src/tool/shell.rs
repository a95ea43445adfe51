//! The command-execution capability.  Spawning the process happens outside
//! this crate; here live its state, its declaration, and the verified
//! rendering of a run's report.

use vstd::prelude::*;

use crate::text::{append_escaped, append_i32, dec_int, json_escaped};
use crate::tool::ToolBuilder;

verus! {

/// The command-execution capability's state: the builder it was made from.
#[derive(Debug)]
pub struct Shell {
    pub base: ToolBuilder,
}

impl Shell {
    pub fn from_builder(base: ToolBuilder) -> (r: Shell)
        ensures
            r.base == base,
    {
        Shell { base }
    }

    /// The JSON report of one command run.
    pub open spec fn spec_output(stdout: Seq<char>, stderr: Seq<char>, status_code: int) -> Seq<
        char,
    > {
        "{\"stdout\":\""@ + json_escaped(stdout) + "\",\"stderr\":\""@ + json_escaped(stderr)
            + "\",\"status_code\":"@ + dec_int(status_code) + "}"@
    }

    /// Renders the report of one command run.
    pub fn render_output(stdout: &str, stderr: &str, status_code: i32) -> (r: String)
        ensures
            r@ == Shell::spec_output(stdout@, stderr@, status_code as int),
    {
        let mut out = String::new();
        out.append("{\"stdout\":\"");
        append_escaped(&mut out, stdout);
        out.append("\",\"stderr\":\"");
        append_escaped(&mut out, stderr);
        out.append("\",\"status_code\":");
        append_i32(&mut out, status_code);
        out.append("}");
        proof {
            assert(out@ =~= Shell::spec_output(stdout@, stderr@, status_code as int));
        }
        out
    }
}

/// The command-execution declaration's description and parameter schema,
/// following the advertised function name.
pub open spec fn shell_doc_tail() -> Seq<char> {
    "\",\"description\":\"This is a shell can be called to run code related to your works. If you find anything related to the environment unknown or uninstalled, take several turns to detect or install it first.\",\"parameters\":{\"type\":\"object\",\"properties\":{\"executable\":{\"type\":\"string\",\"description\":\"executable to be called. Do not put arguments here.\"},\"args\":{\"type\":\"array\",\"description\":\"argument list to that array\",\"minItems\":1,\"maxItems\":1000,\"items\":{\"type\":\"string\"}}},\"required\":[\"executable\"],\"additionalProperties\":false}}}"@
}

pub fn shell_doc_tail_text() -> (r: &'static str)
    ensures
        r@ == shell_doc_tail(),
{
    "\",\"description\":\"This is a shell can be called to run code related to your works. If you find anything related to the environment unknown or uninstalled, take several turns to detect or install it first.\",\"parameters\":{\"type\":\"object\",\"properties\":{\"executable\":{\"type\":\"string\",\"description\":\"executable to be called. Do not put arguments here.\"},\"args\":{\"type\":\"array\",\"description\":\"argument list to that array\",\"minItems\":1,\"maxItems\":1000,\"items\":{\"type\":\"string\"}}},\"required\":[\"executable\"],\"additionalProperties\":false}}}"
}

} // verus!
