//! Where a transcript is pasted. Setting the clipboard and sending the
//! paste keystroke stand outside; the choice of target and the script that
//! macOS runs to paste stand here.
use vstd::prelude::*;

use crate::text::{has_infix, i32_text, int_text, join2, join3};

verus! {

/// The application that owns the focus when a recording starts, to paste
/// into it afterwards. This build tracks no focus: there is none.
pub fn capture_paste_target() -> (r: Option<i32>)
    ensures
        r is None,
{
    None
}

/// The AppleScript that pastes: into the application with the given
/// process id through its Edit menu, or with Command-V into whatever has
/// the focus when there is no target.
pub open spec fn paste_script_of(target_pid: Option<i32>) -> Seq<char> {
    match target_pid {
        Some(pid) => "tell application \"System Events\"\nset targetProcess to first application process whose unix id is "@
            + int_text(pid as int)
            + "\nset frontmost of targetProcess to true\ndelay 0.15\ntell targetProcess to click menu item \"Paste\" of menu \"Edit\" of menu bar 1\nend tell"@,
        None => "tell application \"System Events\" to keystroke \"v\" using command down"@,
    }
}

/// The AppleScript that pastes into the target application.
pub fn paste_script(target_pid: Option<i32>) -> (r: String)
    ensures
        r@ == paste_script_of(target_pid),
{
    broadcast use vstd::string::group_string_axioms;

    match target_pid {
        Some(pid) => {
            let p = i32_text(pid);
            join3(
                "tell application \"System Events\"\nset targetProcess to first application process whose unix id is ",
                p.as_str(),
                "\nset frontmost of targetProcess to true\ndelay 0.15\ntell targetProcess to click menu item \"Paste\" of menu \"Edit\" of menu bar 1\nend tell",
            )
        },
        None => "tell application \"System Events\" to keystroke \"v\" using command down".to_string(),
    }
}

/// The error when the paste script could not be started.
pub fn paste_run_failed_message(detail: &str) -> (r: String)
    ensures
        r@ == "Failed to run the macOS paste shortcut: "@ + detail@,
{
    join2("Failed to run the macOS paste shortcut: ", detail)
}

/// The error when macOS refused the paste script; `detail` is its error output.
pub fn paste_blocked_message(detail: &str) -> (r: String)
    ensures
        r@ == "Typr copied the transcript, but macOS blocked its paste shortcut. Allow Typr under System Settings → Privacy & Security → Accessibility and Automation, then try again. "@
            + detail@,
{
    join2(
        "Typr copied the transcript, but macOS blocked its paste shortcut. Allow Typr under System Settings → Privacy & Security → Accessibility and Automation, then try again. ",
        detail,
    )
}

/// In `pre + mid + post`, the text of `post` from position `k` on stands
/// right after `pre` and `mid`.
proof fn lemma_infix_of_concat(pre: Seq<char>, mid: Seq<char>, post: Seq<char>, k: int, n: int)
    requires
        0 <= k,
        0 <= n,
        k + n <= post.len(),
    ensures
        (pre + mid + post).subrange(pre.len() + mid.len() + k, pre.len() + mid.len() + k + n)
            == post.subrange(k, k + n),
{
    assert((pre + mid + post).subrange(pre.len() + mid.len() + k, pre.len() + mid.len() + k + n)
        =~= post.subrange(k, k + n));
}

/// With a target application, the script finds the process with exactly
/// that process id, brings it to the front and clicks "Paste" in its Edit
/// menu; without one, it sends Command-V to whatever has the focus.
pub proof fn law_paste_script_pastes(target_pid: Option<i32>)
    ensures
        target_pid matches Some(pid) ==> has_infix(
            paste_script_of(target_pid),
            "whose unix id is "@ + int_text(pid as int) + "\n"@,
        ),
        target_pid matches Some(pid) ==> has_infix(
            paste_script_of(target_pid),
            "set frontmost of targetProcess to true"@,
        ),
        target_pid matches Some(pid) ==> has_infix(
            paste_script_of(target_pid),
            "click menu item \"Paste\" of menu \"Edit\""@,
        ),
        target_pid is None ==> has_infix(
            paste_script_of(target_pid),
            "keystroke \"v\" using command down"@,
        ),
{
    let pre = "tell application \"System Events\"\nset targetProcess to first application process whose unix id is "@;
    let post = "\nset frontmost of targetProcess to true\ndelay 0.15\ntell targetProcess to click menu item \"Paste\" of menu \"Edit\" of menu bar 1\nend tell"@;
    let plain = "tell application \"System Events\" to keystroke \"v\" using command down"@;
    reveal_strlit("tell application \"System Events\"\nset targetProcess to first application process whose unix id is ");
    reveal_strlit("\nset frontmost of targetProcess to true\ndelay 0.15\ntell targetProcess to click menu item \"Paste\" of menu \"Edit\" of menu bar 1\nend tell");
    reveal_strlit("tell application \"System Events\" to keystroke \"v\" using command down");
    reveal_strlit("whose unix id is ");
    reveal_strlit("\n");
    reveal_strlit("set frontmost of targetProcess to true");
    reveal_strlit("click menu item \"Paste\" of menu \"Edit\"");
    reveal_strlit("keystroke \"v\" using command down");
    match target_pid {
        Some(pid) => {
            let d = int_text(pid as int);
            let script = pre + d + post;
            assert(script == paste_script_of(target_pid));
            let w = "whose unix id is "@ + d + "\n"@;
            assert(script.subrange(80, 80 + w.len() as int) =~= w);
            let f = "set frontmost of targetProcess to true"@;
            lemma_infix_of_concat(pre, d, post, 1, f.len() as int);
            assert(post.subrange(1, 1 + f.len() as int) =~= f);
            let c = "click menu item \"Paste\" of menu \"Edit\""@;
            lemma_infix_of_concat(pre, d, post, 73, c.len() as int);
            assert(post.subrange(73, 73 + c.len() as int) =~= c);
            assert(script.subrange((pre.len() + d.len()) as int + 1, (pre.len() + d.len()) as int + 1 + f.len() as int) == f);
            assert(script.subrange((pre.len() + d.len()) as int + 73, (pre.len() + d.len()) as int + 73 + c.len() as int) == c);
        },
        None => {
            let k = "keystroke \"v\" using command down"@;
            assert(plain.subrange(36, 36 + k.len() as int) =~= k);
        },
    }
}

} // verus!
