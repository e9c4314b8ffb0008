//! The text of an assistant message while it is streamed: reasoning and answer text arrive
//! in pieces and are shown in one text, with the reasoning in marked blocks.
use vstd::prelude::*;
use vstd::string::*;

use crate::text::{contains_text, occurs_in, opt_view, trim, trimmed};

verus! {

/// One piece of an assistant message.
pub enum Piece {
    /// Reasoning.
    Thought(Seq<char>),
    /// Answer text, or the marker of a tool call.
    Plain(Seq<char>),
}

impl Piece {
    /// The text of the piece.
    pub open spec fn text(self) -> Seq<char> {
        match self {
            Piece::Thought(text) => text,
            Piece::Plain(text) => text,
        }
    }
}

/// The mark in front of a block of reasoning.
pub open spec fn block_start() -> Seq<char> {
    "<think data-aqbot=\"1\">\n"@
}

/// The mark behind a block of reasoning.
pub open spec fn block_end() -> Seq<char> {
    "\n</think>\n\n"@
}

/// Whether the last piece is reasoning, so that its block still has to be closed.
pub open spec fn block_is_open(pieces: Seq<Piece>) -> bool {
    pieces.len() > 0 && pieces.last() is Thought
}

/// The text shown for some pieces: each run of reasoning opens one block, which the next
/// plain piece closes.
pub open spec fn rendered(pieces: Seq<Piece>) -> Seq<char>
    decreases pieces.len(),
{
    if pieces.len() == 0 {
        Seq::empty()
    } else {
        let before = pieces.drop_last();
        match pieces.last() {
            Piece::Thought(text) => if block_is_open(before) {
                rendered(before) + text
            } else if rendered(before).len() == 0 {
                block_start() + text
            } else {
                rendered(before) + "\n\n"@ + block_start() + text
            },
            Piece::Plain(text) => if block_is_open(before) {
                rendered(before) + block_end() + text
            } else {
                rendered(before) + text
            },
        }
    }
}

/// All reasoning, one piece after another.
pub open spec fn thoughts(pieces: Seq<Piece>) -> Seq<char>
    decreases pieces.len(),
{
    if pieces.len() == 0 {
        Seq::empty()
    } else {
        match pieces.last() {
            Piece::Thought(text) => thoughts(pieces.drop_last()) + text,
            Piece::Plain(_) => thoughts(pieces.drop_last()),
        }
    }
}

/// The text of a finished message: an open block is closed, and the agent's result is
/// appended unless it has been shown already.
pub open spec fn final_content(pieces: Seq<Piece>, result: Seq<char>) -> Seq<char> {
    let closed = if block_is_open(pieces) {
        rendered(pieces) + block_end()
    } else {
        rendered(pieces)
    };
    if result.len() > 0 && !occurs_in(result, rendered(pieces)) {
        closed + result
    } else {
        closed
    }
}

/// The text and the reasoning of a message so far.
pub struct Transcript {
    text: String,
    thinking: String,
    in_thinking: bool,
    pieces: Ghost<Seq<Piece>>,
}

impl View for Transcript {
    type V = Seq<Piece>;

    closed spec fn view(&self) -> Seq<Piece> {
        self.pieces@
    }
}

impl Transcript {
    /// The stored texts are those of the pieces.
    pub closed spec fn wf(&self) -> bool {
        &&& self.text@ == rendered(self.pieces@)
        &&& self.thinking@ == thoughts(self.pieces@)
        &&& self.in_thinking == block_is_open(self.pieces@)
    }

    /// A message without any piece.
    pub fn new() -> (transcript: Transcript)
        ensures
            transcript.wf(),
            transcript@ == Seq::<Piece>::empty(),
    {
        Transcript {
            text: String::new(),
            thinking: String::new(),
            in_thinking: false,
            pieces: Ghost(Seq::empty()),
        }
    }

    /// Adds a piece of reasoning.
    pub fn push_thinking(&mut self, thinking: &str)
        requires
            old(self).wf(),
        ensures
            final(self).wf(),
            final(self)@ == old(self)@.push(Piece::Thought(thinking@)),
    {
        let ghost before = self.pieces@;
        let ghost after = before.push(Piece::Thought(thinking@));
        if !self.in_thinking {
            if !self.text.as_str().is_empty() {
                self.text.append("\n\n");
            } else {
                assert(self.text@ =~= Seq::empty());
            }
            self.text.append("<think data-aqbot=\"1\">\n");
            self.in_thinking = true;
        }
        self.text.append(thinking);
        self.thinking.append(thinking);
        self.pieces = Ghost(after);
        proof {
            assert(after.drop_last() =~= before);
            assert(self.text@ =~= rendered(after));
        }
    }

    /// Adds a plain piece.
    pub fn push_text(&mut self, text: &str)
        requires
            old(self).wf(),
        ensures
            final(self).wf(),
            final(self)@ == old(self)@.push(Piece::Plain(text@)),
    {
        let ghost before = self.pieces@;
        let ghost after = before.push(Piece::Plain(text@));
        if self.in_thinking {
            self.text.append("\n</think>\n\n");
            self.in_thinking = false;
        }
        self.text.append(text);
        self.pieces = Ghost(after);
        assert(after.drop_last() =~= before);
    }

    /// The text shown so far.
    pub fn text(&self) -> (text: &str)
        requires
            self.wf(),
        ensures
            text@ == rendered(self@),
    {
        self.text.as_str()
    }

    /// All reasoning so far, unless it is blank.
    pub fn thinking(&self) -> (thinking: Option<String>)
        requires
            self.wf(),
        ensures
            opt_view(thinking) == shown_thinking(self@),
    {
        if trim(self.thinking.as_str()).as_str().is_empty() {
            None
        } else {
            Some(self.thinking.clone())
        }
    }

    /// The text of the finished message.
    pub fn finish(&self, result: &str) -> (content: String)
        requires
            self.wf(),
        ensures
            content@ == final_content(self@, result@),
    {
        let mut content = self.text.clone();
        if self.in_thinking {
            content.append("\n</think>\n\n");
        }
        if !result.is_empty() && !contains_text(self.text.as_str(), result) {
            content.append(result);
        }
        content
    }
}

/// The reasoning that a finished turn reports: none where it is blank.
pub open spec fn shown_thinking(pieces: Seq<Piece>) -> Option<Seq<char>> {
    if trimmed(thoughts(pieces)).len() == 0 {
        None
    } else {
        Some(thoughts(pieces))
    }
}

/// An answer with its reasoning in a block in front, where there is any but white space.
pub open spec fn content_with_thinking(text: Seq<char>, thinking: Option<Seq<char>>) -> Seq<char> {
    match thinking {
        Some(t) if trimmed(t).len() > 0 => rendered(
            seq![Piece::Thought(trimmed(t)), Piece::Plain(text)],
        ),
        _ => text,
    }
}

/// Puts the reasoning of an answer in a block in front of it.
pub fn build_agent_content_with_thinking(text: &str, thinking: Option<&str>) -> (content: String)
    ensures
        content@ == content_with_thinking(text@, opt_view(thinking)),
{
    match thinking {
        Some(thinking) => {
            let thought = trim(thinking);
            if thought.as_str().is_empty() {
                text.to_owned()
            } else {
                let mut content = "<think data-aqbot=\"1\">\n".to_owned();
                content.append(thought.as_str());
                content.append("\n</think>\n\n");
                content.append(text);
                proof {
                    let pieces = seq![Piece::Thought(thought@), Piece::Plain(text@)];
                    assert(pieces.drop_last() =~= seq![Piece::Thought(thought@)]);
                    assert(pieces.drop_last().drop_last() =~= Seq::<Piece>::empty());
                    assert(rendered(pieces.drop_last()) =~= block_start() + thought@) by {
                        reveal_with_fuel(rendered, 2);
                    }
                    assert(content@ =~= rendered(pieces));
                }
                content
            }
        },
        None => text.to_owned(),
    }
}

/// What has been shown stays: the text of more pieces begins with the text of fewer.
pub proof fn rendering_only_grows(pieces: Seq<Piece>, more: Seq<Piece>)
    ensures
        rendered(pieces).is_prefix_of(rendered(pieces + more)),
    decreases more.len(),
{
    if more.len() == 0 {
        assert(pieces + more =~= pieces);
    } else {
        rendering_only_grows(pieces, more.drop_last());
        assert((pieces + more).drop_last() =~= pieces + more.drop_last());
        let shorter = rendered(pieces + more.drop_last());
        let longer = rendered(pieces + more);
        assert(shorter.is_prefix_of(longer));
        assert(rendered(pieces) =~= longer.subrange(0, rendered(pieces).len() as int));
    }
}

/// A part that occurs in a text occurs in every text that begins with it.
pub proof fn occurs_in_longer(part: Seq<char>, short: Seq<char>, long: Seq<char>)
    requires
        occurs_in(part, short),
        short.is_prefix_of(long),
    ensures
        occurs_in(part, long),
{
    let at = choose|at: int|
        0 <= at <= short.len() - part.len() && #[trigger] short.subrange(at, at + part.len())
            == part;
    assert(long.subrange(at, at + part.len()) =~= short.subrange(at, at + part.len()));
}

/// Nothing is lost: the text of every piece occurs in the text shown.
pub proof fn every_piece_is_shown(pieces: Seq<Piece>, at: int)
    requires
        0 <= at < pieces.len(),
    ensures
        occurs_in(pieces[at].text(), rendered(pieces)),
{
    let upto = pieces.take(at + 1);
    let shown = rendered(upto);
    let part = pieces[at].text();
    assert(upto.last() == pieces[at]);
    assert(shown.subrange(shown.len() - part.len(), shown.len() as int) =~= part);
    assert(shown.subrange(shown.len() - part.len(), (shown.len() - part.len()) + part.len())
        == part);
    assert(upto + pieces.skip(at + 1) =~= pieces);
    rendering_only_grows(upto, pieces.skip(at + 1));
    occurs_in_longer(part, shown, rendered(pieces));
}

/// The finished message begins with what was shown, has no open block, and shows the result.
pub proof fn final_content_is_complete(pieces: Seq<Piece>, result: Seq<char>)
    ensures
        rendered(pieces).is_prefix_of(final_content(pieces, result)),
        occurs_in(result, final_content(pieces, result)),
        block_is_open(pieces) ==> (rendered(pieces) + block_end()).is_prefix_of(
            final_content(pieces, result),
        ),
{
    let shown = rendered(pieces);
    let content = final_content(pieces, result);
    assert(shown =~= content.subrange(0, shown.len() as int));
    if result.len() == 0 {
        assert(content.subrange(0, 0) =~= result);
        assert(content.subrange(0, 0int + result.len()) == result);
    } else if occurs_in(result, shown) {
        occurs_in_longer(result, shown, content);
    } else {
        let at = content.len() - result.len();
        assert(content.subrange(at, at + result.len()) =~= result);
    }
    if block_is_open(pieces) {
        let closed = shown + block_end();
        assert(closed =~= content.subrange(0, closed.len() as int));
    }
}

/// Without reasoning the text shown is the plain pieces one after another.
pub proof fn plain_pieces_are_shown_as_they_are(pieces: Seq<Piece>)
    requires
        forall|i: int| 0 <= i < pieces.len() ==> pieces[i] is Plain,
    ensures
        rendered(pieces) == pieces.fold_left(
            Seq::<char>::empty(),
            |shown: Seq<char>, piece: Piece| shown + piece.text(),
        ),
        thoughts(pieces) == Seq::<char>::empty(),
    decreases pieces.len(),
{
    if pieces.len() > 0 {
        plain_pieces_are_shown_as_they_are(pieces.drop_last());
        assert(pieces.last() is Plain);
        if pieces.len() > 1 {
            assert(pieces.drop_last().last() is Plain);
        }
    }
}

/// The first thought after other text opens a block, more thoughts go on in it, and the next
/// plain piece closes it.
pub proof fn thoughts_stand_in_blocks(pieces: Seq<Piece>, text: Seq<char>)
    ensures
        ({
            let shown = rendered(pieces);
            let open = pieces.len() > 0 && pieces.last() is Thought;
            &&& rendered(Seq::empty()).len() == 0
            &&& rendered(pieces.push(Piece::Thought(text))) == if open {
                shown + text
            } else if shown.len() == 0 {
                "<think data-aqbot=\"1\">\n"@ + text
            } else {
                shown + "\n\n"@ + "<think data-aqbot=\"1\">\n"@ + text
            }
            &&& rendered(pieces.push(Piece::Plain(text))) == if open {
                shown + "\n</think>\n\n"@ + text
            } else {
                shown + text
            }
        }),
{
    assert(pieces.push(Piece::Thought(text)).drop_last() =~= pieces);
    assert(pieces.push(Piece::Plain(text)).drop_last() =~= pieces);
}

/// The reasoning of a message is that of its parts side by side, and plain pieces have none.
pub proof fn reasoning_is_collected_in_order(
    first: Seq<Piece>,
    second: Seq<Piece>,
    text: Seq<char>,
)
    ensures
        thoughts(first + second) == thoughts(first) + thoughts(second),
        thoughts(seq![Piece::Thought(text)]) == text,
        thoughts(seq![Piece::Plain(text)]).len() == 0,
    decreases second.len(),
{
    reveal_with_fuel(thoughts, 2);
    assert(seq![Piece::Thought(text)].drop_last() =~= Seq::<Piece>::empty());
    assert(seq![Piece::Plain(text)].drop_last() =~= Seq::<Piece>::empty());
    assert(thoughts(seq![Piece::Thought(text)]) =~= text);
    if second.len() == 0 {
        assert(first + second =~= first);
        assert(thoughts(first) + thoughts(second) =~= thoughts(first));
    } else {
        reasoning_is_collected_in_order(first, second.drop_last(), text);
        assert((first + second).drop_last() =~= first + second.drop_last());
        assert(thoughts(first + second) =~= thoughts(first) + thoughts(second));
    }
}

/// A finished message shows what was shown, closes the last block of reasoning, and ends with
/// the agent's result unless that is empty or was shown before.
pub proof fn a_finished_message_ends_with_its_result(pieces: Seq<Piece>, result: Seq<char>)
    ensures
        ({
            let shown = rendered(pieces);
            let open = pieces.len() > 0 && pieces.last() is Thought;
            let closing = if open {
                "\n</think>\n\n"@
            } else {
                Seq::empty()
            };
            let answer = if result.len() == 0 || occurs_in(result, shown) {
                Seq::empty()
            } else {
                result
            };
            final_content(pieces, result) == shown + closing + answer
        }),
{
    let shown = rendered(pieces);
    let closing = if pieces.len() > 0 && pieces.last() is Thought {
        "\n</think>\n\n"@
    } else {
        Seq::empty()
    };
    let answer = if result.len() == 0 || occurs_in(result, shown) {
        Seq::empty()
    } else {
        result
    };
    assert(final_content(pieces, result) =~= shown + closing + answer);
}

/// Reasoning stands without the white space around it in one block in front of the answer;
/// where there is none but white space the answer stands alone.
pub proof fn reasoning_stands_in_front_of_the_answer(text: Seq<char>, thinking: Seq<char>)
    ensures
        content_with_thinking(text, None) == text,
        content_with_thinking(text, Some(thinking)) == if trimmed(thinking).len() == 0 {
            text
        } else {
            "<think data-aqbot=\"1\">\n"@ + trimmed(thinking) + "\n</think>\n\n"@ + text
        },
{
    let thought = trimmed(thinking);
    let one = Seq::<Piece>::empty().push(Piece::Thought(thought));
    thoughts_stand_in_blocks(Seq::empty(), thought);
    thoughts_stand_in_blocks(one, text);
    assert(seq![Piece::Thought(thought), Piece::Plain(text)] =~= one.push(Piece::Plain(text)));
}

} // verus!
