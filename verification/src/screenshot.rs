//! Screenshot names: which are accepted, and the file they are written to.
use vstd::prelude::*;

use crate::error::DeviceError;
use crate::text::chars_of;

verus! {

/// A name is accepted when it is a plain file name: not empty, not `.` or
/// `..`, and without `/` or `\`.
pub open spec fn valid_screenshot_name(name: Seq<char>) -> bool {
    &&& name.len() > 0
    &&& name != "."@
    &&& name != ".."@
    &&& !name.contains('/')
    &&& !name.contains('\\')
}

/// The file name used for the screenshot called `name`.
pub open spec fn screenshot_file(name: Seq<char>) -> Seq<char> {
    "device-simulator-mcp-"@ + name + ".png"@
}

/// Accepts `name` exactly when it is a plain file name.
pub fn validate_screenshot_name(name: &str) -> (r: Result<(), DeviceError>)
    ensures
        r is Ok <==> valid_screenshot_name(name@),
        r is Err ==> r matches Err(DeviceError::InvalidScreenshotName),
{
    proof {
        reveal_strlit(".");
        reveal_strlit("..");
    }
    let chars = chars_of(name);
    let n = chars.len();
    let mut separator = false;
    let mut i: usize = 0;
    while i < n
        invariant
            n == chars.len(),
            chars@ == name@,
            i <= n,
            separator <==> exists|j: int| 0 <= j < i && (chars@[j] == '/' || chars@[j] == '\\'),
        decreases n - i,
    {
        if chars[i] == '/' || chars[i] == '\\' {
            separator = true;
        }
        i = i + 1;
    }
    assert(separator <==> (name@.contains('/') || name@.contains('\\'))) by {
        if name@.contains('/') {
            let j = choose|j: int| 0 <= j < name@.len() && name@[j] == '/';
            assert(chars@[j] == '/');
        }
        if name@.contains('\\') {
            let j = choose|j: int| 0 <= j < name@.len() && name@[j] == '\\';
            assert(chars@[j] == '\\');
        }
    }
    let dot = n == 1 && chars[0] == '.';
    let dot_dot = n == 2 && chars[0] == '.' && chars[1] == '.';
    assert(dot <==> name@ == "."@) by {
        if name@ == "."@ {
            assert(chars@[0] == '.');
        }
        if dot {
            assert(name@ =~= "."@);
        }
    }
    assert(dot_dot <==> name@ == ".."@) by {
        if name@ == ".."@ {
            assert(chars@[0] == '.' && chars@[1] == '.');
        }
        if dot_dot {
            assert(name@ =~= ".."@);
        }
    }
    if n == 0 || dot || dot_dot || separator {
        Err(DeviceError::InvalidScreenshotName)
    } else {
        Ok(())
    }
}

/// The file name for the screenshot called `name`:
/// `device-simulator-mcp-<name>.png`.
pub fn screenshot_file_name(name: &str) -> (file_name: String)
    ensures
        file_name@ == screenshot_file(name@),
{
    let mut file_name = String::from_str("device-simulator-mcp-");
    file_name.append(name);
    file_name.append(".png");
    file_name
}

/// An accepted name gives a file name that holds no path separator, so the
/// screenshot stays in the directory it is placed in.
pub proof fn accepted_name_stays_in_directory(name: Seq<char>)
    requires
        valid_screenshot_name(name),
    ensures
        !screenshot_file(name).contains('/'),
        !screenshot_file(name).contains('\\'),
{
    reveal_strlit("device-simulator-mcp-");
    reveal_strlit(".png");
    let prefix = "device-simulator-mcp-"@;
    let file = screenshot_file(name);
    assert forall|i: int| 0 <= i < file.len() implies file[i] != '/' && file[i] != '\\' by {
        if i < prefix.len() {
            assert(file[i] == prefix[i]);
        } else if i < prefix.len() + name.len() {
            assert(file[i] == name[i - prefix.len()]);
        } else {
            assert(file[i] == ".png"@[i - prefix.len() - name.len()]);
        }
    }
}

} // verus!
