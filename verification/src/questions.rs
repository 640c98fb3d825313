//! Drawing the questions an applicant must answer.
use vstd::prelude::*;
use crate::chance::shuffle_indices;
use crate::text::{decimal, push_decimal};

verus! {

/// The characters of each string.
pub open spec fn texts(v: Seq<String>) -> Seq<Seq<char>> {
    v.map_values(|s: String| s@)
}

/// The parts joined with `sep` between each two of them.
pub open spec fn join(parts: Seq<Seq<char>>, sep: Seq<char>) -> Seq<char>
    decreases parts.len(),
{
    if parts.len() == 0 {
        Seq::<char>::empty()
    } else if parts.len() == 1 {
        parts[0]
    } else {
        join(parts.drop_last(), sep) + sep + parts.last()
    }
}

/// How many questions are asked: the configured number, but no more than
/// there are questions.
pub open spec fn question_count(questions_number: usize, available: nat) -> nat {
    if questions_number > available { available } else { questions_number as nat }
}

/// A question as it is shown: its number from 1, a dot, a space, the text.
pub open spec fn numbered_question(position: nat, line: Seq<char>) -> Seq<char> {
    decimal(position + 1) + ". "@ + line
}

/// The questions shown, one paragraph each: the first `count` questions in
/// the order `order`, numbered from 1.
pub open spec fn questions_text(lines: Seq<Seq<char>>, order: Seq<usize>, count: nat) -> Seq<char> {
    join(
        Seq::new(count, |i: int| numbered_question(i as nat, lines[order[i] as int])),
        "\n\n"@,
    )
}

/// The indices `0, 1, .., n - 1` in increasing order.
pub open spec fn indices(n: nat) -> Seq<usize> {
    Seq::new(n, |i: int| i as usize)
}

/// Whether `order` holds each index below `n` exactly once, in any order.
pub open spec fn is_arrangement(order: Seq<usize>, n: nat) -> bool {
    order.to_multiset() == indices(n).to_multiset()
}

/// As many questions are asked as configured when there are enough of them,
/// and all of them otherwise.
pub proof fn law_question_count_is_min(questions_number: usize, available: nat)
    ensures
        questions_number <= available ==> question_count(questions_number, available) == questions_number,
        questions_number > available ==> question_count(questions_number, available) == available,
        question_count(questions_number, available) <= available,
        question_count(questions_number, available) <= questions_number,
{
}

/// The text with `count` questions is the text with `count - 1` questions
/// followed by a blank line (unless it is the first) and the `count`-th
/// question, numbered `count`; with no question the text is empty. So the
/// text holds exactly `count` numbered paragraphs.
pub proof fn law_questions_text_grows_by_one(lines: Seq<Seq<char>>, order: Seq<usize>, count: nat)
    ensures
        questions_text(lines, order, 0) == Seq::<char>::empty(),
        count == 1 ==> questions_text(lines, order, 1)
            == decimal(1) + ". "@ + lines[order[0] as int],
        count > 1 ==> questions_text(lines, order, count) == questions_text(lines, order, (count - 1) as nat)
            + "\n\n"@ + decimal(count) + ". "@ + lines[order[count - 1] as int],
{
    let f = |i: int| numbered_question(i as nat, lines[order[i] as int]);
    if count > 1 {
        let parts = Seq::new(count, f);
        assert(parts.drop_last() =~= Seq::new((count - 1) as nat, f));
        assert(parts.last() == numbered_question((count - 1) as nat, lines[order[count - 1] as int]));
        assert(((count - 1) as nat) + 1 == count);
    }
    if count == 1 {
        assert(Seq::new(1, f)[0] == numbered_question(0, lines[order[0] as int]));
    }
}

/// Renders the first `count` questions taken in the order `order`.
pub fn render_questions(lines: &Vec<String>, order: &Vec<usize>, count: usize) -> (text: String)
    requires
        count <= order.len(),
        forall|i: int| 0 <= i < count ==> #[trigger] order@[i] < lines.len(),
    ensures
        text@ == questions_text(texts(lines@), order@, count as nat),
{
    let ghost parts = Seq::new(count as nat, |i: int| numbered_question(i as nat, texts(lines@)[order@[i] as int]));
    let mut text = String::new();
    let mut i: usize = 0;
    while i < count
        invariant
            i <= count,
            count <= order.len(),
            forall|k: int| 0 <= k < count ==> #[trigger] order@[k] < lines.len(),
            parts == Seq::new(count as nat, |k: int| numbered_question(k as nat, texts(lines@)[order@[k] as int])),
            text@ == join(parts.subrange(0, i as int), "\n\n"@),
        decreases count - i,
    {
        let ghost before = text@;
        if i > 0 {
            text.append("\n\n");
        }
        push_decimal(&mut text, (i + 1) as u64);
        text.append(". ");
        let line: &String = &lines[order[i]];
        text.append(line.as_str());
        proof {
            let sub = parts.subrange(0, i + 1);
            assert(sub.drop_last() =~= parts.subrange(0, i as int));
            assert(parts[i as int] == numbered_question(i as nat, lines@[order@[i as int] as int]@));
            if i == 0 {
                assert(sub.len() == 1);
                assert(text@ =~= parts[0]);
            } else {
                assert(text@ =~= before + "\n\n"@ + parts[i as int]);
            }
        }
        i = i + 1;
    }
    assert(parts.subrange(0, count as int) =~= parts);
    text
}

/// Draws the questions for an applicant: the indices of all questions are
/// shuffled, and the first `min(questions_number, lines.len())` of them are
/// rendered. The order is left to chance; whatever it is, each question
/// appears at most once.
pub fn draw_questions(lines: &Vec<String>, questions_number: usize) -> (text: String)
    ensures
        exists|order: Seq<usize>| is_arrangement(order, lines.len() as nat)
            && #[trigger] questions_text(texts(lines@), order, question_count(questions_number, lines.len() as nat)) == text@,
{
    let total = lines.len();
    let count = if questions_number > total { total } else { questions_number };
    let mut order: Vec<usize> = Vec::new();
    let mut i: usize = 0;
    while i < total
        invariant
            i <= total,
            total == lines.len(),
            order@ == indices(i as nat),
        decreases total - i,
    {
        order.push(i);
        i = i + 1;
        assert(order@ =~= indices(i as nat));
    }
    let ghost initial = order@;
    shuffle_indices(&mut order);
    proof {
        law_arrangement_holds_each_question_once(order@, total as nat);
    }
    let text = render_questions(lines, &order, count);
    assert(questions_text(texts(lines@), order@, question_count(questions_number, lines.len() as nat)) == text@);
    text
}

/// An arrangement of the indices below `n` has length `n`, holds only indices
/// below `n`, and holds none twice.
pub proof fn law_arrangement_holds_each_question_once(order: Seq<usize>, n: nat)
    requires
        is_arrangement(order, n),
        n <= usize::MAX,
    ensures
        order.len() == n,
        forall|i: int| 0 <= i < order.len() ==> #[trigger] order[i] < n,
        order.no_duplicates(),
{
    broadcast use vstd::seq_lib::group_to_multiset_ensures;
    let idx = indices(n);
    assert(order.to_multiset().len() == idx.to_multiset().len());
    assert(order.len() == idx.len());
    assert forall|i: int| 0 <= i < order.len() implies #[trigger] order[i] < n by {
        assert(order.contains(order[i]));
        assert(idx.to_multiset().count(order[i]) > 0);
        assert(idx.contains(order[i]));
    }
    assert forall|i: int, j: int| 0 <= i < idx.len() && 0 <= j < idx.len() && i != j implies idx[i] != idx[j] by {
        assert(idx[i] == i);
        assert(idx[j] == j);
    }
    assert(idx.no_duplicates());
    idx.lemma_multiset_has_no_duplicates();
    order.lemma_multiset_has_no_duplicates_conv();
}

} // verus!
