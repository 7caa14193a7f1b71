//! The end-to-end proof that the platform's own SMB client uses the ticket just
//! injected.

use crate::text;
use vstd::prelude::*;
use vstd::string::*;

verus! {

/// The file that is read from the share.
pub const README: &'static str = "README.txt";

/// The file that is written to it. A fixed name: the principal is not secret, but
/// keeping it out of the path avoids putting realm-derived text into a filesystem
/// name.
pub const STAMP: &'static str = "kerbridge-was-here.txt";

/// What is announced.
pub fn announcement(share: &str, principal: &str) -> (r: String)
    ensures
        r@ == "[kerbridge] accessing "@ + share@ + " as "@ + principal@
            + " through the stock SMB client:"@,
{
    let mut s = "[kerbridge] accessing ".to_owned();
    s.append(share);
    s.append(" as ");
    s.append(principal);
    s.append(" through the stock SMB client:");
    s
}

/// What is left on the share.
pub fn stamp(principal: &str) -> (r: String)
    ensures
        r@ == principal@ + " reached this share via cloud identity, no password\n"@,
{
    text::joined(principal, " reached this share via cloud identity, no password\n")
}

/// What reading the file of the share came to: its text without the white space at its
/// end, or why it could not be read. Neither stops the run.
pub open spec fn reading(path: Seq<char>, read: Result<Seq<char>, Seq<char>>) -> Seq<char> {
    match read {
        Ok(content) => "--- "@ + path + " ---\n"@ + text::trim_end(content),
        Err(e) => "[kerbridge] could not read "@ + path + ": "@ + e,
    }
}

pub fn report_reading(path: &str, read: Result<String, String>) -> (r: String)
    ensures
        r@ == reading(
            path@,
            match read {
                Ok(s) => Ok(s@),
                Err(e) => Err(e@),
            },
        ),
{
    match read {
        Ok(content) => {
            let mut s = "--- ".to_owned();
            s.append(path);
            s.append(" ---\n");
            s.append(text::trim_end_of(content.as_str()).as_str());
            s
        },
        Err(e) => {
            let mut s = "[kerbridge] could not read ".to_owned();
            s.append(path);
            s.append(": ");
            s.append(e.as_str());
            s
        },
    }
}

// ------------------------------------------------------------------------ laws

/// A file that was read is shown under its name, without blanks at its end; one that was not
/// is named with why.
pub proof fn law_a_reading_is_shown(path: Seq<char>, content: Seq<char>, e: Seq<char>)
    ensures
        reading(path, Ok(content)) == "--- "@ + path + " ---\n"@ + text::trim_end(content),
        reading(path, Err(e)) == "[kerbridge] could not read "@ + path + ": "@ + e,
{
}

} // verus!
