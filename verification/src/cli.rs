use vstd::prelude::*;
use crate::text::str_eq;

verus! {

/// The window system protocol to run on.
#[derive(Debug, Clone, Copy, PartialEq, Eq, Structural)]
pub enum WindowProtocol {
    Wayland,
    X11,
}

/// Command line options.
#[derive(Debug, Clone, Copy, PartialEq, Eq, Structural)]
pub struct Args {
    pub benchmark: bool,
    pub disable_validation: bool,
    pub window_protocol: WindowProtocol,
}

/// The protocol used when the command line names none.
pub const DEFAULT_WINDOW_PROTOCOL: WindowProtocol = WindowProtocol::Wayland;

pub open spec fn has_arg(args: Seq<Seq<char>>, flag: Seq<char>) -> bool {
    args.contains(flag)
}

pub open spec fn args_view(args: Seq<String>) -> Seq<Seq<char>> {
    args.map_values(|a: String| a@)
}

/// Whether any argument equals `flag`.
pub fn any_arg(args: &Vec<String>, flag: &str) -> (res: bool)
    ensures
        res == has_arg(args_view(args@), flag@),
{
    let ghost v = args_view(args@);
    let mut i: usize = 0;
    while i < args.len()
        invariant
            v == args_view(args@),
            i <= args@.len(),
            forall|j: int| 0 <= j < i ==> v[j] != flag@,
        decreases args@.len() - i,
    {
        assert(v[i as int] == args@[i as int]@);
        if str_eq(args[i].as_str(), flag) {
            return true;
        }
        i = i + 1;
    }
    false
}

impl Args {
    /// Reads the options from the command line arguments: `--wayland` or `--x11` choose the
    /// window protocol (Wayland by default), `--benchmark` and `--disable-validation` switch
    /// those modes on. `None` when both protocols are asked for, which the program refuses.
    pub fn from_args(args: &Vec<String>) -> (res: Option<Args>)
        ensures
            ({
                let a = args_view(args@);
                let wayland = has_arg(a, "--wayland"@);
                let x11 = has_arg(a, "--x11"@);
                match res {
                    None => wayland && x11,
                    Some(r) => !(wayland && x11) && r.window_protocol == (if x11 {
                        WindowProtocol::X11
                    } else {
                        WindowProtocol::Wayland
                    }) && r.benchmark == has_arg(a, "--benchmark"@) && r.disable_validation
                        == has_arg(a, "--disable-validation"@),
                }
            }),
    {
        let wayland = any_arg(args, "--wayland");
        let x11 = any_arg(args, "--x11");
        let window_protocol = if wayland && x11 {
            return None;
        } else if wayland {
            WindowProtocol::Wayland
        } else if x11 {
            WindowProtocol::X11
        } else {
            DEFAULT_WINDOW_PROTOCOL
        };
        Some(
            Args {
                benchmark: any_arg(args, "--benchmark"),
                disable_validation: any_arg(args, "--disable-validation"),
                window_protocol,
            },
        )
    }
}

} // verus!
