//! Importing a keypair: the warning that guards the keypair in use, the
//! check of the pasted key, and the form that shows what the check found.

use crate::async_result::AsyncResult;
use crate::keys::bs58_decode;
use crate::keys::bs58_decoded;
use crate::keys::is_base58_text;
use crate::keys::keypair_accepted;
use crate::keys::keypair_pubkey;
use crate::keys::same_pubkey;
use crate::keys::Pubkey;
use crate::keys::KEY_LENGTH;
use vstd::prelude::*;

verus! {

/// Where the key import screen stands.
#[derive(Clone, Copy, Debug, PartialEq, Eq)]
pub enum ImportKeyStep {
    /// The balance of the keypair in use is not known yet.
    Loading,
    /// The keypair in use holds funds; the user has to accept their loss.
    Warning,
    /// The key can be pasted.
    Import,
}

/// What the key import screen shows.
#[derive(Clone, Copy, Debug, PartialEq, Eq)]
pub enum ImportScreen {
    Loading,
    /// The warning, with the balance that would be lost.
    Warning(u64),
    Import,
    /// The warning is due but the balance is not at hand.
    BalanceUnavailable,
}

impl ImportKeyStep {
    /// The step after the balance query of the keypair in use was looked at:
    /// a loading screen moves on once the balance is known, to the warning
    /// where there are funds and to the import where there are none.
    pub open spec fn advanced<E>(self, balance: AsyncResult<u64, E>) -> ImportKeyStep {
        match self {
            ImportKeyStep::Loading => match balance {
                AsyncResult::Loaded(lamports) => if lamports > 0 {
                    ImportKeyStep::Warning
                } else {
                    ImportKeyStep::Import
                },
                _ => ImportKeyStep::Loading,
            },
            _ => self,
        }
    }

    /// The step after the user accepted the warning.
    pub open spec fn acknowledged(self) -> ImportKeyStep {
        match self {
            ImportKeyStep::Warning => ImportKeyStep::Import,
            _ => self,
        }
    }

    /// What is shown at this step.
    pub open spec fn screen<E>(self, balance: AsyncResult<u64, E>) -> ImportScreen {
        match self {
            ImportKeyStep::Loading => ImportScreen::Loading,
            ImportKeyStep::Warning => match balance {
                AsyncResult::Loaded(lamports) => ImportScreen::Warning(lamports),
                _ => ImportScreen::BalanceUnavailable,
            },
            ImportKeyStep::Import => ImportScreen::Import,
        }
    }
}

/// Looks at the balance query of the keypair in use and moves a loading
/// screen on where the balance is known. Returns whether the step changed.
pub fn advance_on_balance<E>(step: &mut ImportKeyStep, balance: &AsyncResult<u64, E>) -> (moved:
    bool)
    ensures
        *final(step) == old(step).advanced(*balance),
        moved <==> *final(step) != *old(step),
        moved <==> *old(step) is Loading && *balance is Loaded,
{
    match *step {
        ImportKeyStep::Loading => match balance {
            AsyncResult::Loaded(lamports) => {
                if *lamports > 0 {
                    *step = ImportKeyStep::Warning;
                } else {
                    *step = ImportKeyStep::Import;
                }
                true
            },
            _ => false,
        },
        _ => false,
    }
}

/// The user accepts the loss of the funds of the keypair in use. Returns
/// whether that was asked of them: only the warning can be accepted.
pub fn acknowledge_warning(step: &mut ImportKeyStep) -> (accepted: bool)
    ensures
        *final(step) == old(step).acknowledged(),
        accepted <==> *old(step) is Warning,
        accepted ==> *final(step) is Import,
        !accepted ==> *final(step) == *old(step),
{
    match *step {
        ImportKeyStep::Warning => {
            *step = ImportKeyStep::Import;
            true
        },
        _ => false,
    }
}

/// What the key import screen shows at `step`.
pub fn import_screen<E>(step: ImportKeyStep, balance: &AsyncResult<u64, E>) -> (screen:
    ImportScreen)
    ensures
        screen == step.screen(*balance),
{
    match step {
        ImportKeyStep::Loading => ImportScreen::Loading,
        ImportKeyStep::Warning => match balance {
            AsyncResult::Loaded(lamports) => ImportScreen::Warning(*lamports),
            _ => ImportScreen::BalanceUnavailable,
        },
        ImportKeyStep::Import => ImportScreen::Import,
    }
}

/// A keypair in use without funds is replaced without a warning; one with
/// funds, however few, leads to the warning, which no balance moves on from
/// and which only the user's acceptance turns into the import.
pub proof fn law_warning_gates_import<E>(lamports: u64, later: AsyncResult<u64, E>)
    ensures
        lamports == 0 ==> ImportKeyStep::Loading.advanced(AsyncResult::<u64, E>::Loaded(lamports))
            == ImportKeyStep::Import,
        lamports > 0 ==> ImportKeyStep::Loading.advanced(AsyncResult::<u64, E>::Loaded(lamports))
            == ImportKeyStep::Warning,
        ImportKeyStep::Warning.advanced(later) == ImportKeyStep::Warning,
        ImportKeyStep::Warning.acknowledged() == ImportKeyStep::Import,
        ImportKeyStep::Loading.acknowledged() == ImportKeyStep::Loading,
        !(later is Loaded) ==> ImportKeyStep::Loading.advanced(later) == ImportKeyStep::Loading,
{
}

/// What the decoded bytes of a pasted key look like, before the keypair
/// check.
#[derive(Clone, Copy, Debug, PartialEq, Eq)]
pub enum KeyShape {
    /// Nothing was pasted.
    Empty,
    /// The text is not base58.
    InvalidFormat,
    /// The text decodes to some bytes, but not to as many as a keypair has.
    InvalidLength,
    /// The text decodes to as many bytes as a keypair has.
    Candidate,
}

/// What the check of a pasted key found, over plain values.
pub enum KeyVerdict {
    Empty,
    InvalidFormat,
    InvalidLength,
    /// The right number of bytes, which are no keypair.
    InvalidKeypair,
    /// A keypair, with its public key.
    Valid(Seq<u8>),
}

/// What the check of a pasted key found.
#[derive(Clone, Copy, Debug, PartialEq, Eq)]
pub enum KeyCheck {
    Empty,
    InvalidFormat,
    InvalidLength,
    InvalidKeypair,
    Valid(Pubkey),
}

impl View for KeyCheck {
    type V = KeyVerdict;

    open spec fn view(&self) -> KeyVerdict {
        match *self {
            KeyCheck::Empty => KeyVerdict::Empty,
            KeyCheck::InvalidFormat => KeyVerdict::InvalidFormat,
            KeyCheck::InvalidLength => KeyVerdict::InvalidLength,
            KeyCheck::InvalidKeypair => KeyVerdict::InvalidKeypair,
            KeyCheck::Valid(key) => KeyVerdict::Valid(key@),
        }
    }
}

/// The shape of what a text decoded to; `None` stands for a text that did
/// not decode.
pub open spec fn key_shape(decoded: Option<Seq<u8>>) -> KeyShape {
    match decoded {
        None => KeyShape::InvalidFormat,
        Some(bytes) => if bytes.len() == KEY_LENGTH {
            KeyShape::Candidate
        } else if bytes.len() == 0 {
            KeyShape::Empty
        } else {
            KeyShape::InvalidLength
        },
    }
}

/// What a pasted text decodes to: nothing where it is not base58, no bytes
/// where it is empty.
pub open spec fn key_decoding(text: Seq<char>) -> Option<Seq<u8>> {
    if !is_base58_text(text) {
        None
    } else if text.len() == 0 {
        Some(Seq::empty())
    } else {
        Some(bs58_decoded(text))
    }
}

/// What the check comes to for decoded bytes of this shape: where they are
/// as many as a keypair has, the keypair check decides, and `key` is the
/// public key of the keypair that it found, if it found one.
pub open spec fn concluded(shape: KeyShape, key: Option<Seq<u8>>) -> KeyVerdict {
    match shape {
        KeyShape::Empty => KeyVerdict::Empty,
        KeyShape::InvalidFormat => KeyVerdict::InvalidFormat,
        KeyShape::InvalidLength => KeyVerdict::InvalidLength,
        KeyShape::Candidate => match key {
            Some(key) => KeyVerdict::Valid(key),
            None => KeyVerdict::InvalidKeypair,
        },
    }
}

/// The public key of the keypair that these bytes are, if they are one: their
/// second half.
pub open spec fn keypair_key(bytes: Seq<u8>) -> Option<Seq<u8>> {
    if keypair_accepted(bytes) {
        Some(bytes.subrange(32, 64))
    } else {
        None
    }
}

/// What the check of a pasted text finds.
pub open spec fn key_verdict(text: Seq<char>) -> KeyVerdict {
    concluded(
        key_shape(key_decoding(text)),
        match key_decoding(text) {
            Some(bytes) => keypair_key(bytes),
            None => None,
        },
    )
}

/// The message shown under the input field for a verdict.
pub open spec fn verdict_message(verdict: KeyVerdict) -> Option<Seq<char>> {
    match verdict {
        KeyVerdict::InvalidFormat => Some("Invalid format"@),
        KeyVerdict::InvalidLength => Some("Invalid length"@),
        _ => None,
    }
}

/// Tells the shape of what a pasted text decoded to.
pub fn decoded_shape(decoded: &Option<Vec<u8>>) -> (shape: KeyShape)
    ensures
        shape == key_shape(
            match *decoded {
                Some(bytes) => Some(bytes@),
                None => None,
            },
        ),
{
    match decoded {
        None => KeyShape::InvalidFormat,
        Some(bytes) => {
            if bytes.len() == KEY_LENGTH {
                KeyShape::Candidate
            } else if bytes.len() == 0 {
                KeyShape::Empty
            } else {
                KeyShape::InvalidLength
            }
        },
    }
}

/// Draws the conclusion from the shape of the decoded bytes and, for bytes
/// as many as a keypair has, from what the keypair check found.
pub fn conclude(shape: KeyShape, key: Option<Pubkey>) -> (check: KeyCheck)
    ensures
        check@ == concluded(
            shape,
            match key {
                Some(key) => Some(key@),
                None => None,
            },
        ),
{
    match shape {
        KeyShape::Empty => KeyCheck::Empty,
        KeyShape::InvalidFormat => KeyCheck::InvalidFormat,
        KeyShape::InvalidLength => KeyCheck::InvalidLength,
        KeyShape::Candidate => match key {
            Some(key) => KeyCheck::Valid(key),
            None => KeyCheck::InvalidKeypair,
        },
    }
}

/// Checks a pasted key: it has to be base58, decode to as many bytes as a
/// keypair has, and be a keypair.
pub fn check_key(text: &str) -> (check: KeyCheck)
    ensures
        check@ == key_verdict(text@),
{
    let decoded = bs58_decode(text);
    proof {
        if let Some(bytes) = &decoded {
            if text@.len() == 0 {
                assert(bytes@ =~= Seq::<u8>::empty());
            }
            assert(key_decoding(text@) == Some(bytes@));
        }
    }
    let shape = decoded_shape(&decoded);
    let key = match (shape, &decoded) {
        (KeyShape::Candidate, Some(bytes)) => match keypair_pubkey(bytes) {
            Some(bytes) => Some(Pubkey { bytes }),
            None => None,
        },
        _ => None,
    };
    conclude(shape, key)
}

/// The message to show under the input field.
pub fn error_message(check: &KeyCheck) -> (message: Option<&'static str>)
    ensures
        match message {
            Some(text) => verdict_message(check@) == Some(text@),
            None => verdict_message(check@) is None,
        },
{
    match check {
        KeyCheck::InvalidFormat => Some("Invalid format"),
        KeyCheck::InvalidLength => Some("Invalid length"),
        _ => None,
    }
}

/// What the import form holds, over plain values.
pub struct ImportFormState<E> {
    /// The text in the input field.
    pub text: Seq<char>,
    /// What the check of that text found.
    pub check: KeyVerdict,
    /// The balance query for the pasted key, where one was issued.
    pub balance: Option<AsyncResult<u64, E>>,
}

impl<E> ImportFormState<E> {
    /// The form before anything was pasted.
    pub open spec fn initial() -> ImportFormState<E> {
        ImportFormState { text: Seq::empty(), check: KeyVerdict::Empty, balance: None }
    }

    /// A balance is shown for a valid key and for nothing else.
    pub open spec fn consistent(self) -> bool {
        self.balance is Some <==> self.check is Valid
    }

    /// Whether the import button can be pressed.
    pub open spec fn import_enabled(self) -> bool {
        self.check is Valid
    }

    /// The text that pressing the import button makes the key in use: the
    /// text in the input field, where it is a valid key.
    pub open spec fn importable(self) -> Option<Seq<char>> {
        if self.import_enabled() {
            Some(self.text)
        } else {
            None
        }
    }

    /// The public key whose balance is to be asked for when the input field
    /// comes to hold a text that `verdict` was found for: the key of a valid
    /// one, unless the form holds it.
    pub open spec fn query_due(self, verdict: KeyVerdict) -> Option<Seq<u8>> {
        match verdict {
            KeyVerdict::Valid(key) => if self.check == verdict {
                None
            } else {
                Some(key)
            },
            _ => None,
        }
    }

    /// The form after the input field changed to `text`, for which `verdict`
    /// was found: the balance of a key that the form held already stays, that
    /// of a new key is awaited, and a text that is no key has none.
    pub open spec fn with_input(self, text: Seq<char>, verdict: KeyVerdict) -> ImportFormState<E> {
        ImportFormState {
            text,
            check: verdict,
            balance: if !(verdict is Valid) {
                None
            } else if self.check == verdict {
                self.balance
            } else {
                Some(AsyncResult::Loading)
            },
        }
    }

    /// The form after the balance query for `key` answered. An answer for a
    /// key that the form no longer holds, or a second answer, is dropped.
    pub open spec fn with_balance(self, key: Seq<u8>, outcome: Result<u64, E>) -> ImportFormState<
        E,
    > {
        if self.check == KeyVerdict::Valid(key) && self.balance == Some(
            AsyncResult::<u64, E>::Loading,
        ) {
            ImportFormState {
                balance: Some(AsyncResult::<u64, E>::Loading.resolved(outcome)),
                ..self
            }
        } else {
            self
        }
    }
}

/// The form in which a key is pasted: the text in the input field, the
/// verdict on it, and the balance of the account that the key belongs to.
pub struct ImportForm<E> {
    text: String,
    check: KeyCheck,
    balance: Option<AsyncResult<u64, E>>,
}

impl<E> View for ImportForm<E> {
    type V = ImportFormState<E>;

    closed spec fn view(&self) -> ImportFormState<E> {
        ImportFormState { text: self.text@, check: self.check@, balance: self.balance }
    }
}

impl<E> ImportForm<E> {
    #[verifier::type_invariant]
    spec fn balance_follows_key(self) -> bool {
        self.balance is Some <==> self.check is Valid
    }

    /// The form before anything was pasted.
    pub fn new() -> (form: ImportForm<E>)
        ensures
            form@ == ImportFormState::<E>::initial(),
            form@.consistent(),
    {
        ImportForm { text: String::new(), check: KeyCheck::Empty, balance: None }
    }

    /// Takes the new text of the input field with the verdict that was found
    /// for it. Returns the public key to ask the balance of, where a query is
    /// due: once for each valid key, when the form comes to hold it.
    pub fn apply_check(&mut self, text: &str, check: KeyCheck) -> (query: Option<Pubkey>)
        ensures
            final(self)@ == old(self)@.with_input(text@, check@),
            final(self)@.consistent(),
            final(self)@.import_enabled() <==> check@ is Valid,
            match query {
                Some(key) => old(self)@.query_due(check@) == Some(key@),
                None => old(self)@.query_due(check@) is None,
            },
    {
        proof {
            use_type_invariant(&*self);
        }
        match check {
            KeyCheck::Valid(key) => {
                let held = match &self.check {
                    KeyCheck::Valid(current) => same_pubkey(current, &key),
                    _ => false,
                };
                if held {
                    self.text = text.to_owned();
                    None
                } else {
                    *self = ImportForm {
                        text: text.to_owned(),
                        check,
                        balance: Some(AsyncResult::Loading),
                    };
                    Some(key)
                }
            },
            _ => {
                *self = ImportForm { text: text.to_owned(), check, balance: None };
                None
            },
        }
    }

    /// The text of the input field changed: checks it and takes it with its
    /// verdict. Returns the public key to ask the balance of, where a query
    /// is due.
    pub fn on_input(&mut self, text: &str) -> (query: Option<Pubkey>)
        ensures
            final(self)@ == old(self)@.with_input(text@, key_verdict(text@)),
            final(self)@.consistent(),
            final(self)@.import_enabled() <==> key_verdict(text@) is Valid,
            match query {
                Some(key) => old(self)@.query_due(key_verdict(text@)) == Some(key@),
                None => old(self)@.query_due(key_verdict(text@)) is None,
            },
    {
        let check = check_key(text);
        self.apply_check(text, check)
    }

    /// The balance query for `key` answered. Returns whether the answer was
    /// taken: it is dropped where the form holds another key by now, or has
    /// an answer already.
    pub fn on_balance(&mut self, key: &Pubkey, outcome: Result<u64, E>) -> (taken: bool)
        ensures
            final(self)@ == old(self)@.with_balance(key@, outcome),
            final(self)@.consistent(),
            taken <==> old(self)@.check == KeyVerdict::Valid(key@) && old(self)@.balance == Some(
                AsyncResult::<u64, E>::Loading,
            ),
            !taken ==> final(self)@ == old(self)@,
    {
        proof {
            use_type_invariant(&*self);
        }
        let awaited = match &self.check {
            KeyCheck::Valid(current) => same_pubkey(current, key),
            _ => false,
        };
        if !awaited {
            return false;
        }
        let loading = match &self.balance {
            Some(AsyncResult::Loading) => true,
            _ => false,
        };
        if !loading {
            return false;
        }
        let mut query: AsyncResult<u64, E> = AsyncResult::start();
        query.resolve(outcome);
        self.balance = Some(query);
        true
    }

    /// Whether the import button can be pressed.
    pub fn import_enabled(&self) -> (enabled: bool)
        ensures
            enabled <==> self@.import_enabled(),
    {
        match self.check {
            KeyCheck::Valid(_) => true,
            _ => false,
        }
    }

    /// The import button was pressed: gives the text to make the key in use,
    /// which is the text in the input field where it is a valid key. Where it
    /// is none, nothing is to be imported.
    pub fn import(&self) -> (key_text: Option<&str>)
        ensures
            match key_text {
                Some(text) => self@.importable() == Some(text@),
                None => self@.importable() is None,
            },
    {
        match self.check {
            KeyCheck::Valid(_) => Some(self.text.as_str()),
            _ => None,
        }
    }

    /// The text in the input field.
    pub fn text(&self) -> (text: &str)
        ensures
            text@ == self@.text,
    {
        self.text.as_str()
    }

    /// The message to show under the input field.
    pub fn error_message(&self) -> (message: Option<&'static str>)
        ensures
            match message {
                Some(text) => verdict_message(self@.check) == Some(text@),
                None => verdict_message(self@.check) is None,
            },
    {
        error_message(&self.check)
    }

    /// The verdict on the text in the input field.
    pub fn check(&self) -> (check: KeyCheck)
        ensures
            check@ == self@.check,
    {
        self.check
    }

    /// The balance query for the pasted key, where one was issued.
    pub fn balance(&self) -> (balance: Option<&AsyncResult<u64, E>>)
        ensures
            match balance {
                Some(query) => self@.balance == Some(*query),
                None => self@.balance is None,
            },
            self@.consistent(),
    {
        proof {
            use_type_invariant(self);
        }
        self.balance.as_ref()
    }
}

/// What every pasted text comes to. An empty text gives no message and no
/// import; a text with a character outside base58 gives "Invalid format"; a
/// base58 text that decodes to some bytes other than 64 gives "Invalid
/// length"; and the import is open exactly for a base58 text of 64 bytes
/// that are a keypair, whose public key is the second half of them.
pub proof fn law_key_verdict(text: Seq<char>)
    ensures
        text.len() == 0 ==> key_verdict(text) == KeyVerdict::Empty,
        key_verdict(text) is Empty ==> verdict_message(key_verdict(text)) is None,
        !is_base58_text(text) <==> key_verdict(text) is InvalidFormat,
        key_verdict(text) is InvalidFormat ==> verdict_message(key_verdict(text)) == Some(
            "Invalid format"@,
        ),
        is_base58_text(text) && text.len() > 0 && bs58_decoded(text).len() != KEY_LENGTH
            && bs58_decoded(text).len() != 0 ==> key_verdict(text) is InvalidLength,
        key_verdict(text) is InvalidLength ==> verdict_message(key_verdict(text)) == Some(
            "Invalid length"@,
        ),
        key_verdict(text) is Valid <==> is_base58_text(text) && text.len() > 0 && bs58_decoded(
            text,
        ).len() == KEY_LENGTH && keypair_accepted(bs58_decoded(text)),
        key_verdict(text) matches KeyVerdict::Valid(key) ==> key == bs58_decoded(text).subrange(
            32,
            64,
        ),
        key_verdict(text) is Valid ==> verdict_message(key_verdict(text)) is None,
{
    if text.len() == 0 {
        assert(is_base58_text(text));
        assert(Seq::<u8>::empty().len() == 0);
    }
}

/// The import button and the balance follow the text in the input field: the
/// button can be pressed exactly while the text is a valid key, and pressing
/// it imports that very text; a text that is no key takes the balance away;
/// and the balance of a valid key is asked for when the form comes to hold
/// the key and not again while it holds it.
pub proof fn law_form_follows_input<E>(form: ImportFormState<E>, text: Seq<char>)
    requires
        form.consistent(),
    ensures
        ({
            let verdict = key_verdict(text);
            let next = form.with_input(text, verdict);
            &&& next.consistent()
            &&& next.import_enabled() <==> verdict is Valid
            &&& next.importable() is Some <==> verdict is Valid
            &&& next.importable() is Some ==> next.importable() == Some(text)
            &&& !(verdict is Valid) ==> next.balance is None && form.query_due(verdict) is None
            &&& verdict is Valid ==> (form.query_due(verdict) is Some <==> form.check != verdict)
            &&& verdict matches KeyVerdict::Valid(key) ==> ImportFormState::<E>::initial().query_due(
                verdict,
            ) == Some(key)
            &&& form.query_due(verdict) is Some ==> next.balance == Some(
                AsyncResult::<u64, E>::Loading,
            )
            &&& next.query_due(verdict) is None
            &&& next.with_input(text, verdict) == next
        }),
{
}

/// The balance shown belongs to the key in the form: an answer is taken once,
/// for the key that the form holds, and an answer for any other key changes
/// nothing.
pub proof fn law_balance_belongs_to_key<E>(
    form: ImportFormState<E>,
    key: Seq<u8>,
    outcome: Result<u64, E>,
    again: Result<u64, E>,
)
    requires
        form.consistent(),
    ensures
        form.with_balance(key, outcome).consistent(),
        form.with_balance(key, outcome).check == form.check,
        form.with_balance(key, outcome).text == form.text,
        form.check != KeyVerdict::Valid(key) ==> form.with_balance(key, outcome) == form,
        form.with_balance(key, outcome).with_balance(key, again) == form.with_balance(
            key,
            outcome,
        ),
{
}

} // verus!
