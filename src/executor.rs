use vstd::prelude::*;
use vstd::string::StringExecFns;
use crate::url::{decimal, push_decimal};

verus! {

/// The command-line arguments that start the executor serving on `port`:
/// `serve --port <port>`.
pub fn serve_args(port: u16) -> (r: Vec<String>)
    ensures
        r@.len() == 3,
        r@[0]@ == "serve"@,
        r@[1]@ == "--port"@,
        r@[2]@ == decimal(port as nat),
{
    let mut numeral = String::new();
    push_decimal(&mut numeral, port);
    proof {
        assert(Seq::<char>::empty() + decimal(port as nat) =~= decimal(port as nat));
    }
    let mut r: Vec<String> = Vec::new();
    r.push(String::from_str("serve"));
    r.push(String::from_str("--port"));
    r.push(numeral);
    r
}

/// The command-line arguments of the one-time setup run: `init`.
pub fn init_args() -> (r: Vec<String>)
    ensures
        r@.len() == 1,
        r@[0]@ == "init"@,
{
    let mut r: Vec<String> = Vec::new();
    r.push(String::from_str("init"));
    r
}

} // verus!
