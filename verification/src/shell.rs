//! The computed pieces of the desktop-shell wrapper.
//!
//! The shell itself — window management and the webview — is outside glue;
//! what it shows and evaluates is computed here.

use vstd::prelude::*;

verus! {

/// The greeting the shell shows for a name.
pub fn greet(name: &str) -> (r: String)
    ensures
        r@ == "Hello "@ + name@,
{
    let mut s = String::from_str("Hello ");
    s.append(name);
    s
}

/// The script the shell evaluates to send its webview to `url`.
pub fn navigation_script(url: &str) -> (r: String)
    ensures
        r@ == "window.location.replace("@ + url@ + ")"@,
{
    let mut s = String::from_str("window.location.replace(");
    s.append(url);
    s.append(")");
    s
}

} // verus!
