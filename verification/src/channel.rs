//! Naming of verification channels and recovery of the applicant from a name.
use vstd::prelude::*;
use crate::text::{
    all_digits, decimal, lemma_decimal_reads_back, lemma_parse_decimal, parse_decimal_u64, parse_u64,
    push_decimal,
};

verus! {

/// The part of `s` after its last `-`; all of `s` when it holds no `-`.
/// This is what `s.split('-').last()` yields.
pub open spec fn after_last_dash(s: Seq<char>) -> Seq<char>
    decreases s.len(),
{
    if s.len() == 0 {
        s
    } else if s.last() == '-' {
        Seq::<char>::empty()
    } else {
        after_last_dash(s.drop_last()).push(s.last())
    }
}

/// Whether `s` holds no `-`.
pub open spec fn dash_free(s: Seq<char>) -> bool {
    forall|i: int| 0 <= i < s.len() ==> #[trigger] s[i] != '-'
}

/// The name given to an applicant's verification channel: the user name, a
/// `-`, and the user id in decimal.
pub open spec fn channel_name_of(user_name: Seq<char>, user_id: u64) -> Seq<char> {
    user_name.push('-') + decimal(user_id as nat)
}

/// The applicant that a verification channel's name designates.
pub open spec fn applicant_of(channel_name: Seq<char>) -> Option<u64> {
    parse_u64(after_last_dash(channel_name))
}

/// Builds the name of the verification channel of a user.
pub fn verification_channel_name(user_name: &str, user_id: u64) -> (name: String)
    ensures
        name@ == channel_name_of(user_name@, user_id),
{
    let mut name = String::from_str(user_name);
    name.push('-');
    push_decimal(&mut name, user_id);
    name
}

proof fn lemma_after_last_dash_suffix(s: Seq<char>, k: int)
    requires
        0 <= k <= s.len(),
        k == 0 || s[k - 1] == '-',
        dash_free(s.subrange(k, s.len() as int)),
    ensures
        after_last_dash(s) == s.subrange(k, s.len() as int),
    decreases s.len(),
{
    if s.len() > k {
        let t = s.drop_last();
        assert(s.subrange(k, s.len() as int).last() == s.last());
        assert(s.last() != '-');
        assert(dash_free(t.subrange(k, t.len() as int))) by {
            assert forall|i: int| 0 <= i < t.subrange(k, t.len() as int).len() implies
                #[trigger] t.subrange(k, t.len() as int)[i] != '-' by {
                assert(t.subrange(k, t.len() as int)[i] == s.subrange(k, s.len() as int)[i]);
            }
        }
        if k > 0 {
            assert(t[k - 1] == s[k - 1]);
        }
        lemma_after_last_dash_suffix(t, k);
        assert(s.subrange(k, s.len() as int) =~= t.subrange(k, t.len() as int).push(s.last()));
    } else if k > 0 {
        assert(s.subrange(k, s.len() as int) =~= Seq::<char>::empty());
    } else {
        assert(s.len() == 0);
    }
}

/// Reads the applicant's id from the name of a verification channel: the text
/// after the last `-`, read as `str::parse::<u64>` reads it.
pub fn applicant_from_channel_name(channel_name: &str) -> (user_id: Option<u64>)
    ensures
        user_id == applicant_of(channel_name@),
{
    let len = channel_name.unicode_len();
    let mut k: usize = len;
    while k > 0 && channel_name.get_char(k - 1) != '-'
        invariant
            k <= len,
            len == channel_name@.len(),
            dash_free(channel_name@.subrange(k as int, len as int)),
        decreases k,
    {
        let ghost before = channel_name@.subrange(k as int, len as int);
        let c = channel_name.get_char(k - 1);
        k = k - 1;
        proof {
            let after = channel_name@.subrange(k as int, len as int);
            assert forall|i: int| 0 <= i < after.len() implies #[trigger] after[i] != '-' by {
                if i > 0 {
                    assert(after[i] == before[i - 1]);
                } else {
                    assert(after[0] == c);
                }
            }
        }
    }
    proof {
        lemma_after_last_dash_suffix(channel_name@, k as int);
    }
    let tail = channel_name.substring_char(k, len);
    parse_decimal_u64(tail)
}

/// The applicant read back from the name of the verification channel made
/// for a user is that user, whatever the user's name holds.
pub proof fn law_channel_name_designates_applicant(user_name: Seq<char>, user_id: u64)
    ensures
        applicant_of(channel_name_of(user_name, user_id)) == Some(user_id),
{
    let d = decimal(user_id as nat);
    let s = channel_name_of(user_name, user_id);
    let k: int = user_name.len() as int + 1;
    lemma_decimal_reads_back(user_id as nat);
    assert(s.subrange(k, s.len() as int) =~= d);
    assert(s[k - 1] == '-');
    assert(dash_free(d)) by {
        assert forall|i: int| 0 <= i < d.len() implies #[trigger] d[i] != '-' by {
            assert(all_digits(d));
        }
    }
    lemma_after_last_dash_suffix(s, k);
    lemma_parse_decimal(user_id);
}

} // verus!
