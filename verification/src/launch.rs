use vstd::prelude::*;

use crate::text::equals;

verus! {

/// The arguments the application runs with: the program's own name, where
/// the process was given one, followed by `args`.
pub fn program_args(program: Option<String>, args: Vec<String>) -> (r: Vec<String>)
    ensures
        r@ == (match program {
            Some(p) => seq![p],
            None => Seq::<String>::empty(),
        }) + args@,
{
    let mut r: Vec<String> = Vec::new();
    match program {
        Some(p) => r.push(p),
        None => {},
    }
    let mut args = args;
    r.append(&mut args);
    r
}

/// Whether the desktop named by `XDG_CURRENT_DESKTOP` is KDE.
pub fn is_desktop_kde(current_desktop: Option<&str>) -> (r: bool)
    ensures
        r == (current_desktop matches Some(d) && d@ == "KDE"@),
{
    match current_desktop {
        Some(d) => equals(d, "KDE"),
        None => false,
    }
}

/// The environment the streaming server is started with: `NO_CORS` is `1`
/// in development mode and `0` otherwise, and `SERVER_IPC_KEY` carries the key.
pub fn server_environment(dev: bool, ipc_key: &str) -> (r: Vec<(String, String)>)
    ensures
        r@.len() == 2,
        r@[0].0@ == "NO_CORS"@,
        r@[0].1@ == (if dev { "1"@ } else { "0"@ }),
        r@[1].0@ == "SERVER_IPC_KEY"@,
        r@[1].1@ == ipc_key@,
{
    let no_cors = if dev { String::from_str("1") } else { String::from_str("0") };
    let mut r: Vec<(String, String)> = Vec::new();
    r.push((String::from_str("NO_CORS"), no_cors));
    r.push((String::from_str("SERVER_IPC_KEY"), String::from_str(ipc_key)));
    r
}

/// The keyboard shortcuts of the application's actions: each action's
/// detailed name with its accelerator.
pub fn accelerators() -> (r: Vec<(String, String)>)
    ensures
        r@.len() == 2,
        r@[0].0@ == "app.quit"@,
        r@[0].1@ == "<Control>q"@,
        r@[1].0@ == "app.show-preferences"@,
        r@[1].1@ == "<Control>comma"@,
{
    let mut r: Vec<(String, String)> = Vec::new();
    r.push((String::from_str("app.quit"), String::from_str("<Control>q")));
    r.push((String::from_str("app.show-preferences"), String::from_str("<Control>comma")));
    r
}

} // verus!
