//! Signing in.

use vstd::prelude::*;

verus! {

/// The question for the account's password, with the hint where the
/// account has one.
pub open spec fn password_prompt_of(hint: Option<Seq<char>>) -> Seq<char> {
    match hint {
        Some(hint) => "Enter the password (hint "@ + hint + ")"@,
        None => "Enter the password"@,
    }
}

/// The question for the account's password.
pub fn password_prompt(hint: Option<&str>) -> (out: String)
    ensures
        out@ == password_prompt_of(
            match hint {
                Some(hint) => Some(hint@),
                None => None,
            },
        ),
{
    match hint {
        Some(hint) => {
            let mut out = String::new();
            out.append("Enter the password (hint ");
            out.append(hint);
            out.append(")");
            assert(out@ =~= "Enter the password (hint "@ + hint@ + ")"@);
            out
        },
        None => "Enter the password".to_owned(),
    }
}

} // verus!
