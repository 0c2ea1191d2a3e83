//! The message sender's argument handling.
//!
//! The sender takes its recipient from the first positional argument —
//! mandatory, checked before any network activity — and its message body
//! from the remaining arguments joined with single spaces; with no further
//! arguments the body is the empty string.

use vstd::prelude::*;
use vstd::string::StringExecFns;

verus! {

/// One message to deliver: recipient and body.
#[derive(Clone, Debug, PartialEq, Eq)]
pub struct MailRequest {
    pub to: String,
    pub body: String,
}

/// The message sender aborts before any network call when no recipient
/// argument was given.
#[derive(Clone, Copy, Debug, PartialEq, Eq, Structural)]
pub enum MailArgError {
    MissingRecipient,
}

/// The parts joined with a single space between consecutive parts; the
/// empty sequence of parts joins to the empty string.
pub open spec fn spec_joined(parts: Seq<Seq<char>>) -> Seq<char>
    decreases parts.len(),
{
    if parts.len() == 0 {
        Seq::empty()
    } else if parts.len() == 1 {
        parts[0]
    } else {
        spec_joined(parts.drop_last()) + seq![' '] + parts.last()
    }
}

/// Joins the parts with single spaces.
pub fn join_with_spaces(parts: &Vec<String>) -> (r: String)
    ensures
        r@ == spec_joined(parts.deep_view()),
{
    let ghost pv = parts.deep_view();
    let mut out = String::new();
    let mut i: usize = 0;
    proof {
        reveal_strlit(" ");
        assert(pv.take(0) =~= Seq::<Seq<char>>::empty());
    }
    while i < parts.len()
        invariant
            i <= parts.len(),
            pv == parts.deep_view(),
            out@ == spec_joined(pv.take(i as int)),
        decreases parts.len() - i,
    {
        proof {
            assert(pv.take(i + 1).drop_last() =~= pv.take(i as int));
            assert(pv.take(i + 1).last() == pv[i as int]);
        }
        if i > 0 {
            out.append(" ");
            proof {
                reveal_strlit(" ");
                assert(" "@ =~= seq![' ']);
            }
        }
        out.append(parts[i].as_str());
        i += 1;
    }
    proof {
        assert(pv.take(parts@.len() as int) =~= pv);
    }
    out
}

/// Splits the positional arguments into recipient and body: the first
/// argument is the recipient, the rest joined with single spaces is the
/// body. With no arguments at all the sender fails fast.
pub fn parse_mail_args(args: &Vec<String>) -> (r: Result<MailRequest, MailArgError>)
    ensures
        args@.len() == 0 ==> (r matches Err(e) && e == MailArgError::MissingRecipient),
        args@.len() > 0 ==> (r matches Ok(m) && m.to@ == args.deep_view()[0] && m.body@
            == spec_joined(args.deep_view().skip(1))),
{
    if args.len() == 0 {
        return Err(MailArgError::MissingRecipient);
    }
    let to = args[0].clone();
    let mut rest: Vec<String> = Vec::new();
    let mut i: usize = 1;
    proof {
        assert(rest.deep_view() =~= args.deep_view().subrange(1, 1));
    }
    while i < args.len()
        invariant
            1 <= i <= args.len(),
            rest.deep_view() == args.deep_view().subrange(1, i as int),
        decreases args.len() - i,
    {
        let ghost before = rest.deep_view();
        rest.push(args[i].clone());
        proof {
            assert(rest.deep_view() =~= before.push(args.deep_view()[i as int]));
        }
        i += 1;
        proof {
            assert(rest.deep_view() =~= args.deep_view().subrange(1, i as int));
        }
    }
    proof {
        assert(args.deep_view().subrange(1, args@.len() as int) =~= args.deep_view().skip(1));
    }
    let body = join_with_spaces(&rest);
    Ok(MailRequest { to, body })
}

/// The message sender uses the first session of the account; an account
/// with no characters yields no session and the run aborts.
#[derive(Clone, Copy, Debug, PartialEq, Eq, Structural)]
pub enum SessionError {
    NoCharacters,
}

/// Which of the account's sessions a flow uses: the first one, and with
/// zero sessions the run fails with a descriptive error.
pub fn pick_first_session(session_count: usize) -> (r: Result<usize, SessionError>)
    ensures
        session_count == 0 ==> (r matches Err(e) && e == SessionError::NoCharacters),
        session_count > 0 ==> (r matches Ok(i) && i == 0),
{
    if session_count == 0 {
        Err(SessionError::NoCharacters)
    } else {
        Ok(0)
    }
}

} // verus!
