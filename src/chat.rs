use vstd::prelude::*;
use crate::screen::{
    apply_puts, blank, plain, put_cell, rect_puts, run_puts, wrap_puts, Char, Pos, Screen,
};
use crate::state::State;
use vstd::slice::slice_subrange;

verus! {

/// Vertical line glyph of the display's character set.
pub const GLYPH_VERTICAL: u8 = 0xF5;

/// Horizontal line glyph.
pub const GLYPH_HORIZONTAL: u8 = 0xF1;

/// Top-left corner glyph.
pub const GLYPH_TOP_LEFT: u8 = 0xF0;

/// Top-right corner glyph.
pub const GLYPH_TOP_RIGHT: u8 = 0xF2;

/// Left tee glyph.
pub const GLYPH_LEFT_TEE: u8 = 0xF4;

/// Right tee glyph.
pub const GLYPH_RIGHT_TEE: u8 = 0xF9;

/// Bottom-left corner glyph.
pub const GLYPH_BOTTOM_LEFT: u8 = 0xF6;

/// Bottom-right corner glyph.
pub const GLYPH_BOTTOM_RIGHT: u8 = 0xF7;

/// Block glyph that marks the input position.
pub const GLYPH_CARET: u8 = 0xE9;

/// The key that closes the chat.
pub const KEY_ESCAPE: u8 = 0x1B;

/// The key that deletes the last prompt byte.
pub const KEY_BACKSPACE: u8 = 0x08;

/// The key that sends the prompt.
pub const KEY_ENTER: u8 = 0x0D;

/// Columns of the prompt line that show prompt bytes.
pub const PROMPT_COLUMNS: usize = 39;

/// Who wrote a message of the conversation.
#[derive(Clone, Copy, PartialEq, Eq, Structural, Debug)]
pub enum Role {
    User,
    Assistant,
}

/// One message of the conversation, as the bytes that were typed or received.
pub struct Message {
    pub role: Role,
    pub content: Vec<u8>,
}

/// The prompt marker byte, `>`.
pub open spec fn marker() -> u8 {
    0x3E
}

/// The title written into the top border.
pub open spec fn title() -> Seq<u8> {
    seq![0x20, 0x43, 0x48, 0x41, 0x54, 0x2D, 0x47, 0x50, 0x54, 0x20]
}

/// The chat's frame drawn over `g`: borders, title, corners and an empty
/// prompt line.
pub open spec fn chat_frame(g: Seq<Char>) -> Seq<Char> {
    let g = apply_puts(g, rect_puts(Pos { x: 0, y: 1 }, 1, 6, plain(GLYPH_VERTICAL)));
    let g = apply_puts(g, rect_puts(Pos { x: 39, y: 1 }, 1, 6, plain(GLYPH_VERTICAL)));
    let g = apply_puts(g, rect_puts(Pos { x: 1, y: 0 }, 38, 1, plain(GLYPH_HORIZONTAL)));
    let g = apply_puts(g, rect_puts(Pos { x: 1, y: 5 }, 38, 1, plain(GLYPH_HORIZONTAL)));
    let g = apply_puts(g, rect_puts(Pos { x: 1, y: 7 }, 38, 1, plain(GLYPH_HORIZONTAL)));
    let g = apply_puts(g, run_puts(Pos { x: 15, y: 0 }, title(), false));
    let g = put_cell(g, 0, 0, plain(GLYPH_TOP_LEFT));
    let g = put_cell(g, 39, 0, plain(GLYPH_TOP_RIGHT));
    let g = put_cell(g, 0, 5, plain(GLYPH_LEFT_TEE));
    let g = put_cell(g, 39, 5, plain(GLYPH_RIGHT_TEE));
    let g = put_cell(g, 0, 7, plain(GLYPH_BOTTOM_LEFT));
    let g = put_cell(g, 39, 7, plain(GLYPH_BOTTOM_RIGHT));
    let g = put_cell(g, 0, 6, plain(marker()));
    put_cell(g, 1, 6, plain(GLYPH_CARET))
}

/// The last bytes of the prompt that fit on the prompt line.
pub open spec fn prompt_tail(prompt: Seq<u8>) -> Seq<u8> {
    if prompt.len() > PROMPT_COLUMNS {
        prompt.subrange(prompt.len() - PROMPT_COLUMNS, prompt.len() as int)
    } else {
        prompt
    }
}

/// The prompt line and the answer area of `g` redrawn for `prompt` and
/// `response`.
pub open spec fn chat_refresh(g: Seq<Char>, prompt: Seq<u8>, response: Seq<u8>) -> Seq<Char> {
    let shown = prompt_tail(prompt);
    let g = apply_puts(g, rect_puts(Pos { x: 0, y: 6 }, 39, 1, blank()));
    let g = apply_puts(g, rect_puts(Pos { x: 1, y: 1 }, 38, 4, blank()));
    let g = apply_puts(g, run_puts(Pos { x: 0, y: 6 }, shown, false));
    let g = put_cell(g, 39, 6, plain(GLYPH_VERTICAL));
    let g = put_cell(g, shown.len() as int, 6, plain(GLYPH_CARET));
    apply_puts(g, wrap_puts(Pos { x: 1, y: 1 }, response, 0, 0, 38))
}

/// The answer area of `g` with `response` written over it.
pub open spec fn chat_answer(g: Seq<Char>, response: Seq<u8>) -> Seq<Char> {
    apply_puts(g, wrap_puts(Pos { x: 1, y: 1 }, response, 0, 0, 38))
}

/// The prompt after a key other than escape: enter leaves only the marker,
/// backspace deletes the last byte but never the marker, and any other byte
/// is appended.
pub open spec fn prompt_after(prompt: Seq<u8>, key: u8) -> Seq<u8> {
    if key == KEY_ENTER {
        seq![marker()]
    } else if key == KEY_BACKSPACE {
        if prompt.len() > 1 {
            prompt.drop_last()
        } else {
            prompt
        }
    } else {
        prompt.push(key)
    }
}

/// A chat screen: the conversation so far, the prompt being typed (after its
/// `>` marker), and the answer being received.
pub struct ChatGpt {
    pub messages: Vec<Message>,
    pub prompt: Vec<u8>,
    pub response: Vec<u8>,
}

/// What handling `key` does, from chat `c` and session `s0` to chat `d` and
/// session `s1`; `send` tells whether the conversation is to be sent.
pub open spec fn chat_key_post(c: ChatGpt, d: ChatGpt, s0: State, s1: State, key: u8, send: bool) -> bool {
    &&& d.wf()
    &&& send == (key == KEY_ENTER)
    &&& key == KEY_ESCAPE ==> d == c && s1 == (State { exit: true, ..s0 })
    &&& key == KEY_ENTER ==> {
        &&& s1 == s0
        &&& d.prompt@ == prompt_after(c.prompt@, key)
        &&& d.response@ == Seq::<u8>::empty()
        &&& d.history() == c.history() + (if c.response@.len() > 0 {
            seq![(Role::Assistant, c.response@)]
        } else {
            Seq::empty()
        }) + seq![(Role::User, c.prompt@.drop_first())]
    }
    &&& key != KEY_ESCAPE && key != KEY_ENTER ==> {
        &&& d.history() == c.history()
        &&& d.response@ == c.response@
        &&& d.prompt@ == prompt_after(c.prompt@, key)
        &&& s1.painted(&s0, chat_refresh(s0.screen@.cells, d.prompt@, d.response@))
    }
}

/// What a piece of the answer does, from chat `c` and session `s0` to chat `d`
/// and session `s1`.
pub open spec fn chat_receive_post(c: ChatGpt, d: ChatGpt, s0: State, s1: State, piece: Seq<u8>) -> bool {
    &&& d.wf()
    &&& d.history() == c.history()
    &&& d.prompt@ == c.prompt@
    &&& d.response@ == c.response@ + piece
    &&& s1.painted(&s0, chat_answer(s0.screen@.cells, d.response@))
}

impl Default for ChatGpt {
    fn default() -> (r: Self)
        ensures
            r.wf(),
            r.history() == Seq::<(Role, Seq<u8>)>::empty(),
            r.prompt@ == seq![marker()],
            r.response@ == Seq::<u8>::empty(),
    {
        ChatGpt::new()
    }
}

/// The roles and contents of a list of messages.
pub open spec fn history_of(m: Seq<Message>) -> Seq<(Role, Seq<u8>)> {
    m.map_values(|x: Message| (x.role, x.content@))
}

impl ChatGpt {
    pub open spec fn wf(&self) -> bool {
        self.prompt@.len() >= 1 && self.prompt@[0] == marker()
    }

    pub open spec fn history(&self) -> Seq<(Role, Seq<u8>)> {
        history_of(self.messages@)
    }

    /// No conversation yet, an empty prompt, no answer.
    pub fn new() -> (r: ChatGpt)
        ensures
            r.wf(),
            r.history() == Seq::<(Role, Seq<u8>)>::empty(),
            r.prompt@ == seq![marker()],
            r.response@ == Seq::<u8>::empty(),
    {
        let mut prompt: Vec<u8> = Vec::new();
        prompt.push(0x3E);
        let r = ChatGpt { messages: Vec::new(), prompt, response: Vec::new() };
        assert(r.history() =~= Seq::<(Role, Seq<u8>)>::empty());
        assert(r.prompt@ =~= seq![marker()]);
        r
    }

    /// Draws the frame of the chat and flushes it.
    pub fn init(&self, state: &mut State)
        requires
            old(state).wf(),
        ensures
            final(state).painted(old(state), chat_frame(old(state).screen@.cells)),
    {
        let v = GLYPH_VERTICAL;
        let h = GLYPH_HORIZONTAL;
        state.screen.rect(Pos::new(0, 1), Pos::new(1, 6), Char::from(v));
        state.screen.rect(Pos::new(39, 1), Pos::new(1, 6), Char::from(v));
        state.screen.rect(Pos::new(1, 0), Pos::new(38, 1), Char::from(h));
        state.screen.rect(Pos::new(1, 5), Pos::new(38, 1), Char::from(h));
        state.screen.rect(Pos::new(1, 7), Pos::new(38, 1), Char::from(h));
        let t: Vec<u8> = vec![0x20, 0x43, 0x48, 0x41, 0x54, 0x2D, 0x47, 0x50, 0x54, 0x20];
        assert(t@ == title());
        state.screen.write_string(Pos::new(15, 0), t.as_slice());
        state.screen.put(Pos::new(0, 0), Char::from(GLYPH_TOP_LEFT));
        state.screen.put(Pos::new(39, 0), Char::from(GLYPH_TOP_RIGHT));
        state.screen.put(Pos::new(0, 5), Char::from(GLYPH_LEFT_TEE));
        state.screen.put(Pos::new(39, 5), Char::from(GLYPH_RIGHT_TEE));
        state.screen.put(Pos::new(0, 7), Char::from(GLYPH_BOTTOM_LEFT));
        state.screen.put(Pos::new(39, 7), Char::from(GLYPH_BOTTOM_RIGHT));
        state.screen.put(Pos::new(0, 6), Char::from(0x3E));
        state.screen.put(Pos::new(1, 6), Char::from(GLYPH_CARET));
        state.draw();
    }

    /// Redraws the prompt line and the answer area and flushes.
    pub fn refresh(&self, state: &mut State)
        requires
            old(state).wf(),
        ensures
            final(state).painted(
                old(state),
                chat_refresh(old(state).screen@.cells, self.prompt@, self.response@),
            ),
    {
        let len = self.prompt.len();
        let from: usize = if len > PROMPT_COLUMNS { len - PROMPT_COLUMNS } else { 0 };
        let shown = slice_subrange(self.prompt.as_slice(), from, len);
        assert(shown@ =~= prompt_tail(self.prompt@));
        state.screen.rect(Pos::new(0, 6), Pos::new(39, 1), Char::from(0x20));
        state.screen.rect(Pos::new(1, 1), Pos::new(38, 4), Char::from(0x20));
        state.screen.write_string(Pos::new(0, 6), shown);
        state.screen.put(Pos::new(39, 6), Char::from(GLYPH_VERTICAL));
        state.screen.put(Pos::new(shown.len(), 6), Char::from(GLYPH_CARET));
        state.screen.write_string_wrapped(Pos::new(1, 1), self.response.as_slice(), 38);
        state.draw();
    }

    /// Handles one key. Escape asks for the chat to be closed; backspace
    /// deletes the last prompt byte, never the marker; enter moves the prompt
    /// (and any answer before it) into the conversation and returns `true`:
    /// the conversation is then to be sent and the answer fed back through
    /// `receive`, then `refresh`. Any other byte is appended to the prompt.
    /// Every key but escape and enter redraws.
    pub fn on_key(&mut self, state: &mut State, key: u8) -> (send: bool)
        requires
            old(self).wf(),
            old(state).wf(),
        ensures
            chat_key_post(*old(self), *final(self), *old(state), *final(state), key, send),
    {
        if key == KEY_ESCAPE {
            state.exit();
            return false;
        }
        if key == KEY_ENTER {
            let ghost old_history = self.history();
            let ghost old_prompt = self.prompt@;
            let ghost old_response = self.response@;
            let mut fresh: Vec<u8> = Vec::new();
            fresh.push(0x3E);
            let mut typed = fresh;
            std::mem::swap(&mut typed, &mut self.prompt);
            if self.response.len() > 0 {
                let mut answer: Vec<u8> = Vec::new();
                std::mem::swap(&mut answer, &mut self.response);
                self.messages.push(Message { role: Role::Assistant, content: answer });
            }
            typed.remove(0);
            self.messages.push(Message { role: Role::User, content: typed });
            assert(self.prompt@ =~= seq![marker()]);
            assert(self.response@ =~= Seq::<u8>::empty());
            assert(self.history() =~= old_history + (if old_response.len() > 0 {
                seq![(Role::Assistant, old_response)]
            } else {
                Seq::empty()
            }) + seq![(Role::User, old_prompt.drop_first())]);
            return true;
        }
        if key == KEY_BACKSPACE {
            if self.prompt.len() > 1 {
                self.prompt.pop();
            }
        } else {
            self.prompt.push(key);
        }
        self.refresh(state);
        false
    }

    /// Appends a piece of the answer, writes the answer so far into the
    /// answer area and flushes.
    pub fn receive(&mut self, state: &mut State, piece: &[u8])
        requires
            old(self).wf(),
            old(state).wf(),
        ensures
            chat_receive_post(*old(self), *final(self), *old(state), *final(state), piece@),
    {
        let mut i: usize = 0;
        while i < piece.len()
            invariant
                i <= piece@.len(),
                self.prompt@ == old(self).prompt@,
                self.messages@ == old(self).messages@,
                self.response@ == old(self).response@ + piece@.take(i as int),
            decreases piece@.len() - i,
        {
            self.response.push(piece[i]);
            assert(old(self).response@ + piece@.take(i + 1) =~= (old(self).response@ + piece@.take(i as int)).push(piece@[i as int]));
            i = i + 1;
        }
        assert(piece@.take(i as int) =~= piece@);
        state.screen.write_string_wrapped(Pos::new(1, 1), self.response.as_slice(), 38);
        state.draw();
    }
}

} // verus!
