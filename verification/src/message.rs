//! Interfaces for creating and using messages.
//!
//! A [`Msg`] is a mutable, ordered collection of tagged fields, with a
//! byte-size account that mirrors the native wire accounting: an empty
//! message occupies a fixed baseline of 8 bytes and every field adds its
//! own positive cost on top. Contracts are stated over [`MsgModel`], the
//! mathematical shape of a message; the model itself is abstract outside
//! this module, and what the operations guarantee about it is stated in
//! their contracts.

use vstd::prelude::*;

use crate::errors::{ErrorKind, Status, TibrvError};
use crate::field::{
    clean_ascii, clone_msg_field, field_model, fields_model, lemma_fields_model,
    lemma_fields_model_push, no_nul, opt_str_model, BorrowedMsgField, DataModel, Decodable,
    Encodable, FieldModel, MsgField,
};


verus! {

broadcast use vstd::std_specs::vec::group_vec_axioms;

/// A struct representing an owned message: an ordered collection of
/// tagged fields together with an optional send subject and an optional
/// reply subject.
#[derive(Debug)]
pub struct Msg {
    pub(crate) fields: Vec<MsgField>,
    pub(crate) send_subject: Option<String>,
    pub(crate) reply_subject: Option<String>,
}

/// The mathematical shape of a message.
#[verifier::ext_equal]
pub struct MsgModel {
    pub fields: Seq<FieldModel>,
    pub send_subject: Option<Seq<char>>,
    pub reply_subject: Option<Seq<char>>,
}

/// The model of a message.
pub closed spec fn msg_model(m: Msg) -> MsgModel
    decreases m,
{
    MsgModel {
        fields: fields_model(m.fields@),
        send_subject: opt_str_model(m.send_subject),
        reply_subject: opt_str_model(m.reply_subject),
    }
}

impl View for Msg {
    type V = MsgModel;

    open spec fn view(&self) -> MsgModel {
        msg_model(*self)
    }
}

/// The byte-size baseline of an empty message.
pub open spec fn empty_msg_byte_size() -> nat {
    8
}

/// The bytes one field adds to a message: a fixed per-field overhead,
/// the field's name with its terminator, and the declared payload bytes
/// (element width times element count).
pub open spec fn field_cost(fm: FieldModel) -> nat {
    (5 + (match fm.name {
        Some(n) => n.len() + 1,
        None => 0,
    }) + fm.size * fm.count) as nat
}

/// The bytes a sequence of fields adds to a message.
pub open spec fn fields_cost(s: Seq<FieldModel>) -> nat
    decreases s.len(),
{
    if s.len() == 0 {
        0
    } else {
        field_cost(s[0]) + fields_cost(s.drop_first())
    }
}

/// The byte size of a message: the baseline plus the cost of each field.
pub open spec fn spec_byte_size(m: MsgModel) -> nat {
    empty_msg_byte_size() + fields_cost(m.fields)
}

/// Every field costs at least its fixed overhead, so adding a field
/// always strictly increases a message's byte size.
pub proof fn lemma_field_cost_positive(fm: FieldModel)
    ensures
        field_cost(fm) >= 5,
{
}

/// Appending a field adds exactly its cost.
pub proof fn lemma_fields_cost_push(s: Seq<FieldModel>, f: FieldModel)
    ensures
        fields_cost(s.push(f)) == fields_cost(s) + field_cost(f),
    decreases s.len(),
{
    reveal_with_fuel(fields_cost, 3);
    if s.len() == 0 {
        assert(s.push(f).drop_first() =~= Seq::empty());
        assert(s.push(f)[0] == f);
    } else {
        assert(s.push(f).drop_first() =~= s.drop_first().push(f));
        assert(s.push(f)[0] == s[0]);
        lemma_fields_cost_push(s.drop_first(), f);
    }
}

/// Removing a field removes exactly its cost.
pub proof fn lemma_fields_cost_remove(s: Seq<FieldModel>, i: int)
    requires
        0 <= i < s.len(),
    ensures
        fields_cost(s) == fields_cost(s.remove(i)) + field_cost(s[i]),
    decreases i,
{
    if i == 0 {
        assert(s.remove(0) =~= s.drop_first());
    } else {
        assert(s.remove(i).drop_first() =~= s.drop_first().remove(i - 1));
        assert(s.remove(i)[0] == s[0]);
        lemma_fields_cost_remove(s.drop_first(), i - 1);
        assert(s.drop_first()[i - 1] == s[i]);
    }
}

/// A prefix never costs more than the whole sequence.
pub proof fn lemma_fields_cost_prefix_le(s: Seq<FieldModel>, i: int)
    requires
        0 <= i <= s.len(),
    ensures
        fields_cost(s.subrange(0, i)) <= fields_cost(s),
    decreases i,
{
    if i == 0 {
        assert(s.subrange(0, 0) =~= Seq::empty());
    } else {
        assert(s.subrange(0, i)[0] == s[0]);
        assert(s.subrange(0, i).drop_first() =~= s.drop_first().subrange(0, i - 1));
        lemma_fields_cost_prefix_le(s.drop_first(), i - 1);
        assert(fields_cost(s.drop_first().subrange(0, i - 1)) <= fields_cost(s.drop_first()));
    }
}

/// The cost of a sequence bounds its length: each field costs at least 5.
pub proof fn lemma_fields_cost_lower(s: Seq<FieldModel>)
    ensures
        fields_cost(s) >= 5 * s.len(),
    decreases s.len(),
{
    if s.len() > 0 {
        lemma_fields_cost_lower(s.drop_first());
    }
}

/// The index of the first field carrying the given name, if any.
pub open spec fn find_named(s: Seq<FieldModel>, name: Seq<char>) -> Option<int>
    decreases s.len(),
{
    if s.len() == 0 {
        None
    } else if s[0].name == Some(name) {
        Some(0)
    } else {
        match find_named(s.drop_first(), name) {
            Some(i) => Some(i + 1),
            None => None,
        }
    }
}

/// `find_named` yields the first matching index: the field there carries
/// the name and no earlier field does; `None` means no field carries it.
pub proof fn lemma_find_named(s: Seq<FieldModel>, name: Seq<char>)
    ensures
        match find_named(s, name) {
            Some(i) => 0 <= i < s.len() && s[i].name == Some(name) && forall|j: int|
                0 <= j < i ==> s[j].name != Some(name),
            None => forall|j: int| 0 <= j < s.len() ==> s[j].name != Some(name),
        },
    decreases s.len(),
{
    if s.len() > 0 && s[0].name != Some(name) {
        lemma_find_named(s.drop_first(), name);
        assert(forall|j: int| 1 <= j < s.len() ==> s[j] == s.drop_first()[j - 1]);
    }
}

/// The index of the first field carrying the given id, if any.
pub open spec fn find_with_id(s: Seq<FieldModel>, id: u16) -> Option<int>
    decreases s.len(),
{
    if s.len() == 0 {
        None
    } else if s[0].id == id {
        Some(0)
    } else {
        match find_with_id(s.drop_first(), id) {
            Some(i) => Some(i + 1),
            None => None,
        }
    }
}

/// `find_with_id` yields the first matching index, as `find_named` does
/// for names.
pub proof fn lemma_find_with_id(s: Seq<FieldModel>, id: u16)
    ensures
        match find_with_id(s, id) {
            Some(i) => 0 <= i < s.len() && s[i].id == id && forall|j: int|
                0 <= j < i ==> s[j].id != id,
            None => forall|j: int| 0 <= j < s.len() ==> s[j].id != id,
        },
    decreases s.len(),
{
    if s.len() > 0 && s[0].id != id {
        lemma_find_with_id(s.drop_first(), id);
        assert(forall|j: int| 1 <= j < s.len() ==> s[j] == s.drop_first()[j - 1]);
    }
}

/// Whether a subject contains a wildcard character.
pub open spec fn has_wildcard(s: Seq<char>) -> bool {
    exists|i: int| 0 <= i < s.len() && ((#[trigger] s[i]) == '*' || s[i] == '>')
}

/// A subject usable for sending: non-empty, representable as a native
/// string, and free of wildcard characters.
pub open spec fn valid_send_subject(s: Seq<char>) -> bool {
    clean_ascii(s) && s.len() > 0 && !has_wildcard(s)
}

/// An optional subject slot is valid when empty or holding a valid send
/// subject.
pub open spec fn valid_opt_subject(o: Option<Seq<char>>) -> bool {
    match o {
        Some(s) => valid_send_subject(s),
        None => true,
    }
}

/// Whether a string is non-NUL ASCII throughout (exec counterpart of
/// [`clean_ascii`]).
pub(crate) fn check_clean_ascii(s: &str) -> (r: bool)
    ensures
        r == clean_ascii(s@),
{
    if !s.is_ascii() {
        return false;
    }
    let n = s.unicode_len();
    let mut i: usize = 0;
    while i < n
        invariant
            n == s@.len(),
            i <= n,
            vstd::utf8::is_ascii_chars(s@),
            forall|j: int| 0 <= j < i ==> (#[trigger] s@[j]) != '\0',
        decreases n - i,
    {
        if s.get_char(i) == '\0' {
            return false;
        }
        i = i + 1;
    }
    true
}

/// Whether a string is free of NUL characters (exec counterpart of
/// [`no_nul`]).
pub(crate) fn check_no_nul(s: &str) -> (r: bool)
    ensures
        r == no_nul(s@),
{
    let n = s.unicode_len();
    let mut i: usize = 0;
    while i < n
        invariant
            n == s@.len(),
            i <= n,
            forall|j: int| 0 <= j < i ==> (#[trigger] s@[j]) != '\0',
        decreases n - i,
    {
        if s.get_char(i) == '\0' {
            return false;
        }
        i = i + 1;
    }
    true
}

/// Whether a string contains a wildcard character (exec counterpart of
/// [`has_wildcard`]).
pub(crate) fn check_has_wildcard(s: &str) -> (r: bool)
    ensures
        r == has_wildcard(s@),
{
    let n = s.unicode_len();
    let mut i: usize = 0;
    while i < n
        invariant
            n == s@.len(),
            i <= n,
            forall|j: int| 0 <= j < i ==> ((#[trigger] s@[j]) != '*' && s@[j] != '>'),
        decreases n - i,
    {
        let c = s.get_char(i);
        if c == '*' || c == '>' {
            return true;
        }
        i = i + 1;
    }
    false
}

/// The cost of one field, computed exactly.
fn exec_field_cost(f: &MsgField) -> (r: u128)
    ensures
        r == field_cost(f@),
        r < 0x40000000000000000,
{
    let name_cost: u128 = match &f.name {
        Some(s) => s.as_str().unicode_len() as u128 + 1,
        None => 0,
    };
    proof {
        assert((f.size as int) * (f.count as int) <= 0xffff_ffff * 0xffff_ffff)
            by (nonlinear_arith)
            requires
                f.size <= 0xffff_ffffu32,
                f.count <= 0xffff_ffffu32,
        ;
    }
    let payload: u128 = (f.size as u128) * (f.count as u128);
    5 + name_cost + payload
}

/// The total cost of a message's fields, computed exactly; callable only
/// while the total fits the 32-bit account.
fn fields_total_cost(fields: &Vec<MsgField>) -> (r: u128)
    requires
        fields_cost(fields_model(fields@)) <= 0xffff_ffff,
    ensures
        r == fields_cost(fields_model(fields@)),
{
    let ghost ms = fields_model(fields@);
    proof {
        lemma_fields_model(fields@);
    }
    let mut acc: u128 = 0;
    let mut i: usize = 0;
    while i < fields.len()
        invariant
            i <= fields.len(),
            fields.len() == ms.len(),
            ms == fields_model(fields@),
            fields_cost(ms) <= 0xffff_ffff,
            forall|j: int| 0 <= j < ms.len() ==> ms[j] == field_model(fields@[j]),
            acc == fields_cost(ms.subrange(0, i as int)),
        decreases fields.len() - i,
    {
        let c = exec_field_cost(&fields[i]);
        proof {
            assert(ms.subrange(0, i as int + 1) =~= ms.subrange(0, i as int).push(
                ms[i as int],
            ));
            lemma_fields_cost_push(ms.subrange(0, i as int), ms[i as int]);
            lemma_fields_cost_prefix_le(ms, i as int + 1);
        }
        acc = acc + c;
        i = i + 1;
    }
    proof {
        assert(ms.subrange(0, ms.len() as int) =~= ms);
    }
    acc
}

fn clone_opt_subject(s: &Option<String>) -> (r: Option<String>)
    ensures
        r == *s,
{
    match s {
        Some(v) => Some(v.clone()),
        None => None,
    }
}

/// Deep-copy a message; the copy has the same model.
pub(crate) fn clone_msg(m: &Msg) -> (r: Msg)
    ensures
        r@ == m@,
    decreases *m,
{
    let mut fields: Vec<MsgField> = Vec::new();
    let mut i: usize = 0;
    while i < m.fields.len()
        invariant
            i <= m.fields.len(),
            fields@.len() == i,
            forall|j: int| 0 <= j < i ==> field_model(#[trigger] fields@[j]) == field_model(
                m.fields@[j],
            ),
        decreases m.fields.len() - i,
    {
        proof {
            assert(decreases_to!(*m => m.fields));
        }
        let copy = clone_msg_field(&m.fields[i]);
        fields.push(copy);
        i = i + 1;
    }
    let r = Msg {
        fields,
        send_subject: clone_opt_subject(&m.send_subject),
        reply_subject: clone_opt_subject(&m.reply_subject),
    };
    proof {
        lemma_fields_model(r.fields@);
        lemma_fields_model(m.fields@);
        assert(fields_model(r.fields@) =~= fields_model(m.fields@));
        assert(r@ =~= m@);
    }
    r
}

impl Msg {
    /// Well-formedness: the message's byte size fits the native 32-bit
    /// account, and its subject slots only ever hold validated subjects.
    /// Constructors establish it and every operation keeps it.
    pub open spec fn wf(&self) -> bool {
        &&& spec_byte_size(self@) <= u32::MAX
        &&& valid_opt_subject(self@.send_subject)
        &&& valid_opt_subject(self@.reply_subject)
    }

    /// Construct a new, empty owned message.
    pub fn new() -> (r: Result<Msg, TibrvError>)
        ensures
            r matches Ok(m) && m@.fields.len() == 0 && m@.send_subject is None
                && m@.reply_subject is None && m.wf() && spec_byte_size(m@)
                == empty_msg_byte_size(),
    {
        let m = Msg { fields: Vec::new(), send_subject: None, reply_subject: None };
        proof {
            lemma_fields_model(m.fields@);
            assert(fields_model(m.fields@) =~= Seq::empty());
        }
        Ok(m)
    }

    /// Deep copy: the clone has the same fields and subjects, in
    /// independent storage.
    pub fn try_clone(&self) -> (r: Result<Msg, TibrvError>)
        ensures
            r matches Ok(m) && m@ == self@,
    {
        Ok(clone_msg(self))
    }

    /// Add a field to this message.
    ///
    /// The field's contents are always copied, so the passed field does
    /// not need to live beyond this call. Fails only when the resulting
    /// message would overflow the native 32-bit byte-size account.
    pub fn add_field(&mut self, field: &mut MsgField) -> (r: Result<(), TibrvError>)
        requires
            old(self).wf(),
        ensures
            final(field)@ == old(field)@,
            final(self).wf(),
            if spec_byte_size(old(self)@) + field_cost(old(field)@) <= u32::MAX {
                &&& r is Ok
                &&& final(self)@.fields == old(self)@.fields.push(old(field)@)
                &&& final(self)@.send_subject == old(self)@.send_subject
                &&& final(self)@.reply_subject == old(self)@.reply_subject
                &&& spec_byte_size(final(self)@) == spec_byte_size(old(self)@) + field_cost(
                    old(field)@,
                )
            } else {
                &&& r matches Err(e) && e.kind == ErrorKind::UnknownError(Status::NoMemory)
                &&& final(self)@ == old(self)@
            },
    {
        proof {
            lemma_fields_cost_lower(self@.fields);
        }
        let current = fields_total_cost(&self.fields);
        let cost = exec_field_cost(&*field);
        if 8 + current + cost > 0xffff_ffff {
            return Err(TibrvError { kind: ErrorKind::UnknownError(Status::NoMemory) });
        }
        let copy = clone_msg_field(&*field);
        self.fields.push(copy);
        proof {
            lemma_fields_model_push(old(self).fields@, copy);
            lemma_fields_cost_push(fields_model(old(self).fields@), field_model(copy));
        }
        Ok(())
    }

    /// Get a field from this message by name.
    ///
    /// The returned field is an owned copy of the first field carrying
    /// the name.
    pub fn get_field_by_name(&self, name: &str) -> (r: Result<BorrowedMsgField, TibrvError>)
        requires
            self.wf(),
        ensures
            if !no_nul(name@) {
                r matches Err(e) && e.kind == ErrorKind::StrContentError
            } else {
                match find_named(self@.fields, name@) {
                    Some(i) => r matches Ok(b) && b@ == self@.fields[i],
                    None => r matches Err(e) && e.kind == ErrorKind::UnknownError(
                        Status::NotFound,
                    ),
                }
            },
    {
        self.get_field(Some(name), None)
    }

    /// Get a field from this message by id.
    ///
    /// The returned field is an owned copy of the first field carrying
    /// the id (its low sixteen bits).
    pub fn get_field_by_id(&self, id: u32) -> (r: Result<BorrowedMsgField, TibrvError>)
        requires
            self.wf(),
        ensures
            match find_with_id(self@.fields, crate::field::spec_field_id(Some(id))) {
                Some(i) => r matches Ok(b) && b@ == self@.fields[i],
                None => r matches Err(e) && e.kind == ErrorKind::UnknownError(Status::NotFound),
            },
    {
        self.get_field(None, Some(id))
    }

    /// Get a field from this message by position.
    pub fn get_field_by_index(&self, index: u32) -> (r: Result<BorrowedMsgField, TibrvError>)
        requires
            self.wf(),
        ensures
            index < self@.fields.len() ==> (r matches Ok(b) && b@ == self@.fields[index as int]),
            index >= self@.fields.len() ==> (r matches Err(e) && e.kind == ErrorKind::UnknownError(
                Status::NotFound,
            )),
    {
        proof {
            lemma_fields_model(self.fields@);
        }
        if (index as usize) < self.fields.len() {
            Ok(BorrowedMsgField { inner: clone_msg_field(&self.fields[index as usize]) })
        } else {
            Err(TibrvError { kind: ErrorKind::UnknownError(Status::NotFound) })
        }
    }

    /// Get a field by exactly one of name or id.
    fn get_field(&self, name: Option<&str>, id: Option<u32>) -> (r: Result<
        BorrowedMsgField,
        TibrvError,
    >)
        requires
            self.wf(),
            name is Some <==> id is None,
        ensures
            match name {
                Some(n) => if !no_nul(n@) {
                    r matches Err(e) && e.kind == ErrorKind::StrContentError
                } else {
                    match find_named(self@.fields, n@) {
                        Some(i) => r matches Ok(b) && b@ == self@.fields[i],
                        None => r matches Err(e) && e.kind == ErrorKind::UnknownError(
                            Status::NotFound,
                        ),
                    }
                },
                None => match find_with_id(self@.fields, crate::field::spec_field_id(id)) {
                    Some(i) => r matches Ok(b) && b@ == self@.fields[i],
                    None => r matches Err(e) && e.kind == ErrorKind::UnknownError(
                        Status::NotFound,
                    ),
                },
            },
    {
        let found: Option<usize> = match name {
            Some(n) => {
                if !check_no_nul(n) {
                    return Err(TibrvError { kind: ErrorKind::StrContentError });
                }
                find_field_by_name(&self.fields, n)
            },
            None => {
                let idq: u16 = match id {
                    Some(v) => (v % 0x10000) as u16,
                    None => 0,
                };
                find_field_by_id(&self.fields, idq)
            },
        };
        proof {
            lemma_fields_model(self.fields@);
        }
        match found {
            Some(i) => Ok(BorrowedMsgField { inner: clone_msg_field(&self.fields[i]) }),
            None => Err(TibrvError { kind: ErrorKind::UnknownError(Status::NotFound) }),
        }
    }

    /// Remove the first field carrying the given name.
    pub fn remove_field_by_name(&mut self, name: &str) -> (r: Result<(), TibrvError>)
        requires
            old(self).wf(),
        ensures
            final(self).wf(),
            final(self)@.send_subject == old(self)@.send_subject,
            final(self)@.reply_subject == old(self)@.reply_subject,
            if !no_nul(name@) {
                r matches Err(e) && e.kind == ErrorKind::StrContentError && final(self)@ == old(
                    self,
                )@
            } else {
                match find_named(old(self)@.fields, name@) {
                    Some(i) => r is Ok && final(self)@.fields == old(self)@.fields.remove(i),
                    None => r matches Err(e) && e.kind == ErrorKind::UnknownError(
                        Status::NotFound,
                    ) && final(self)@ == old(self)@,
                }
            },
    {
        self.remove_field(Some(name), None)
    }

    /// Remove the first field carrying the given id.
    pub fn remove_field_by_id(&mut self, id: u32) -> (r: Result<(), TibrvError>)
        requires
            old(self).wf(),
        ensures
            final(self).wf(),
            final(self)@.send_subject == old(self)@.send_subject,
            final(self)@.reply_subject == old(self)@.reply_subject,
            match find_with_id(old(self)@.fields, crate::field::spec_field_id(Some(id))) {
                Some(i) => r is Ok && final(self)@.fields == old(self)@.fields.remove(i),
                None => r matches Err(e) && e.kind == ErrorKind::UnknownError(Status::NotFound)
                    && final(self)@ == old(self)@,
            },
    {
        self.remove_field(None, Some(id))
    }

    /// Remove a field by exactly one of name or id.
    fn remove_field(&mut self, name: Option<&str>, id: Option<u32>) -> (r: Result<
        (),
        TibrvError,
    >)
        requires
            old(self).wf(),
            name is Some <==> id is None,
        ensures
            final(self).wf(),
            final(self)@.send_subject == old(self)@.send_subject,
            final(self)@.reply_subject == old(self)@.reply_subject,
            match name {
                Some(n) => if !no_nul(n@) {
                    r matches Err(e) && e.kind == ErrorKind::StrContentError && final(self)@
                        == old(self)@
                } else {
                    match find_named(old(self)@.fields, n@) {
                        Some(i) => r is Ok && final(self)@.fields == old(self)@.fields.remove(i),
                        None => r matches Err(e) && e.kind == ErrorKind::UnknownError(
                            Status::NotFound,
                        ) && final(self)@ == old(self)@,
                    }
                },
                None => match find_with_id(old(self)@.fields, crate::field::spec_field_id(id)) {
                    Some(i) => r is Ok && final(self)@.fields == old(self)@.fields.remove(i),
                    None => r matches Err(e) && e.kind == ErrorKind::UnknownError(
                        Status::NotFound,
                    ) && final(self)@ == old(self)@,
                },
            },
    {
        let found: Option<usize> = match name {
            Some(n) => {
                if !check_no_nul(n) {
                    return Err(TibrvError { kind: ErrorKind::StrContentError });
                }
                find_field_by_name(&self.fields, n)
            },
            None => {
                let idq: u16 = match id {
                    Some(v) => (v % 0x10000) as u16,
                    None => 0,
                };
                find_field_by_id(&self.fields, idq)
            },
        };
        match found {
            Some(i) => {
                proof {
                    lemma_fields_model(self.fields@);
                }
                self.fields.remove(i);
                proof {
                    lemma_fields_model(self.fields@);
                    lemma_fields_model(old(self).fields@);
                    assert(fields_model(self.fields@) =~= fields_model(
                        old(self).fields@,
                    ).remove(i as int));
                    lemma_fields_cost_remove(fields_model(old(self).fields@), i as int);
                }
                Ok(())
            },
            None => Err(TibrvError { kind: ErrorKind::UnknownError(Status::NotFound) }),
        }
    }

    /// The number of fields within this message.
    pub fn num_fields(&self) -> (r: Result<u32, TibrvError>)
        requires
            self.wf(),
        ensures
            r matches Ok(n) && n == self@.fields.len(),
    {
        proof {
            lemma_fields_model(self.fields@);
            lemma_fields_cost_lower(self@.fields);
        }
        Ok(self.fields.len() as u32)
    }

    /// Expand the internal storage of a message.
    ///
    /// Storage management is left to the underlying allocator here, so
    /// this never changes the message and always succeeds.
    pub fn expand(&mut self, amount: i32) -> (r: Result<(), TibrvError>)
        ensures
            r is Ok,
            final(self)@ == old(self)@,
    {
        let _ = amount;
        Ok(())
    }

    /// The size of the message in bytes.
    pub fn byte_size(&self) -> (r: Result<u32, TibrvError>)
        requires
            self.wf(),
        ensures
            r matches Ok(n) && n == spec_byte_size(self@),
    {
        proof {
            lemma_fields_model(self.fields@);
        }
        let total = fields_total_cost(&self.fields);
        Ok((8 + total) as u32)
    }

    /// Set the send subject for the message.
    ///
    /// A send subject must be representable as a native string and must
    /// be a non-empty subject without wildcards.
    pub fn set_send_subject(&mut self, subject: &str) -> (r: Result<(), TibrvError>)
        ensures
            final(self)@.fields == old(self)@.fields,
            final(self)@.reply_subject == old(self)@.reply_subject,
            if !clean_ascii(subject@) {
                r matches Err(e) && e.kind == ErrorKind::StrContentError && final(self)@ == old(
                    self,
                )@
            } else if !valid_send_subject(subject@) {
                r matches Err(e) && e.kind == ErrorKind::UnknownError(Status::InvalidSubject)
                    && final(self)@ == old(self)@
            } else {
                r is Ok && final(self)@.send_subject == Some(subject@)
            },
    {
        if !check_clean_ascii(subject) {
            return Err(TibrvError { kind: ErrorKind::StrContentError });
        }
        if subject.unicode_len() == 0 || check_has_wildcard(subject) {
            return Err(TibrvError { kind: ErrorKind::UnknownError(Status::InvalidSubject) });
        }
        self.send_subject = Some(subject.to_owned());
        Ok(())
    }

    /// The send subject currently set on the message, if any.
    pub fn get_send_subject(&self) -> (r: Result<Option<String>, TibrvError>)
        ensures
            r matches Ok(o) && opt_str_model(o) == self@.send_subject,
    {
        Ok(clone_opt_subject(&self.send_subject))
    }

    /// Set the reply subject for the message: the subject a responder
    /// will address its reply to. The same rules hold as for the send
    /// subject.
    pub fn set_reply_subject(&mut self, subject: &str) -> (r: Result<(), TibrvError>)
        ensures
            final(self)@.fields == old(self)@.fields,
            final(self)@.send_subject == old(self)@.send_subject,
            if !clean_ascii(subject@) {
                r matches Err(e) && e.kind == ErrorKind::StrContentError && final(self)@ == old(
                    self,
                )@
            } else if !valid_send_subject(subject@) {
                r matches Err(e) && e.kind == ErrorKind::UnknownError(Status::InvalidSubject)
                    && final(self)@ == old(self)@
            } else {
                r is Ok && final(self)@.reply_subject == Some(subject@)
            },
    {
        if !check_clean_ascii(subject) {
            return Err(TibrvError { kind: ErrorKind::StrContentError });
        }
        if subject.unicode_len() == 0 || check_has_wildcard(subject) {
            return Err(TibrvError { kind: ErrorKind::UnknownError(Status::InvalidSubject) });
        }
        self.reply_subject = Some(subject.to_owned());
        Ok(())
    }

    /// The reply subject carried by the message, if any.
    pub fn get_reply_subject(&self) -> (r: Result<Option<String>, TibrvError>)
        ensures
            r matches Ok(o) && opt_str_model(o) == self@.reply_subject,
    {
        Ok(clone_opt_subject(&self.reply_subject))
    }

    /// An iterator over the message's fields, starting at the first.
    pub fn iter<'m>(&'m self) -> (r: MsgIter<'m>)
        ensures
            r.msg == self,
            r.index == 0,
    {
        MsgIter { msg: self, index: 0 }
    }
}

fn find_field_by_name(fields: &Vec<MsgField>, name: &str) -> (r: Option<usize>)
    ensures
        match r {
            Some(i) => i < fields@.len() && find_named(fields_model(fields@), name@) == Some(
                i as int,
            ),
            None => find_named(fields_model(fields@), name@) is None,
        },
{
    let ghost ms = fields_model(fields@);
    proof {
        lemma_fields_model(fields@);
        lemma_find_named(ms, name@);
    }
    let mut i: usize = 0;
    while i < fields.len()
        invariant
            i <= fields.len(),
            ms == fields_model(fields@),
            ms.len() == fields.len(),
            forall|j: int| 0 <= j < ms.len() ==> ms[j] == field_model(fields@[j]),
            forall|j: int| 0 <= j < i ==> (#[trigger] ms[j]).name != Some(name@),
        decreases fields.len() - i,
    {
        let f = &fields[i];
        let matched = match &f.name {
            Some(n) => string_eq_str(n, name),
            None => false,
        };
        proof {
            assert(matched == (ms[i as int].name == Some(name@)));
        }
        if matched {
            proof {
                lemma_find_named(ms, name@);
                match find_named(ms, name@) {
                    Some(k) => {
                        if k < i {
                            assert(ms[k].name != Some(name@));
                        }
                        if k > i {
                            assert(ms[i as int].name != Some(name@));
                        }
                    },
                    None => {
                        assert(ms[i as int].name != Some(name@));
                    },
                }
            }
            return Some(i);
        }
        i = i + 1;
    }
    None
}

fn find_field_by_id(fields: &Vec<MsgField>, id: u16) -> (r: Option<usize>)
    ensures
        match r {
            Some(i) => i < fields@.len() && find_with_id(fields_model(fields@), id) == Some(
                i as int,
            ),
            None => find_with_id(fields_model(fields@), id) is None,
        },
{
    let ghost ms = fields_model(fields@);
    proof {
        lemma_fields_model(fields@);
        lemma_find_with_id(ms, id);
    }
    let mut i: usize = 0;
    while i < fields.len()
        invariant
            i <= fields.len(),
            ms == fields_model(fields@),
            ms.len() == fields.len(),
            forall|j: int| 0 <= j < ms.len() ==> ms[j] == field_model(fields@[j]),
            forall|j: int| 0 <= j < i ==> (#[trigger] ms[j]).id != id,
        decreases fields.len() - i,
    {
        let f = &fields[i];
        if f.id == id {
            proof {
                assert(ms[i as int].id == id);
                lemma_find_with_id(ms, id);
                match find_with_id(ms, id) {
                    Some(k) => {
                        if k < i {
                            assert(ms[k].id != id);
                        }
                        if k > i {
                            assert(ms[i as int].id != id);
                        }
                    },
                    None => {
                        assert(ms[i as int].id != id);
                    },
                }
            }
            return Some(i);
        }
        i = i + 1;
    }
    None
}

fn string_eq_str(a: &String, b: &str) -> (r: bool)
    ensures
        r == (a@ == b@),
{
    let bs = String::from_str(b);
    a.eq(&bs)
}

/// An iterator over a message's fields.
///
/// A fresh iteration reads the live field count at each step and indexes
/// from zero up to it; each step hands out an owned copy of one field.
pub struct MsgIter<'m> {
    /// The message being iterated.
    pub msg: &'m Msg,
    /// The index of the next field to hand out.
    pub index: u32,
}

impl<'m> MsgIter<'m> {
    /// The next field of the message, or `None` past the end.
    pub fn next(&mut self) -> (r: Option<Result<BorrowedMsgField, TibrvError>>)
        requires
            old(self).msg.wf(),
        ensures
            final(self).msg == old(self).msg,
            if old(self).index < old(self).msg@.fields.len() {
                &&& final(self).index == old(self).index + 1
                &&& r matches Some(f) && (f matches Ok(b) && b@ == old(self).msg@.fields[old(
                    self,
                ).index as int])
            } else {
                &&& final(self).index == old(self).index
                &&& r is None
            },
    {
        let num_fields = match self.msg.num_fields() {
            Ok(n) => n,
            Err(e) => {
                return Some(Err(e));
            },
        };
        if self.index >= num_fields {
            return None;
        }
        let r = self.msg.get_field_by_index(self.index);
        self.index = self.index + 1;
        Some(r)
    }
}

impl Encodable for Msg {
    open spec fn encoded_data(&self) -> DataModel {
        DataModel::Msg(self@)
    }

    open spec fn encoded_size(&self) -> u32 {
        spec_byte_size(self@) as u32
    }

    open spec fn encoded_count(&self) -> u32 {
        1
    }

    open spec fn encodable(&self) -> bool {
        self.wf()
    }

    fn tibrv_encode(&self, name: Option<&str>, id: Option<u32>) -> (r: MsgField) {
        proof {
            lemma_fields_model(self.fields@);
        }
        let total = fields_total_cost(&self.fields);
        MsgField {
            name: crate::field::encode_name(name),
            id: crate::field::encode_id(id),
            size: (8 + total) as u32,
            count: 1,
            data: crate::field::FieldData::Msg(Box::new(clone_msg(self))),
        }
    }
}

/// A struct representing a message whose storage is owned by the native
/// runtime, e.g. one handed to a callback; it must be copied into an
/// owned [`Msg`] before it can outlive its producer.
#[derive(Debug)]
pub struct BorrowedMsg {
    pub(crate) inner: Msg,
}

impl View for BorrowedMsg {
    type V = MsgModel;

    closed spec fn view(&self) -> MsgModel {
        self.inner@
    }
}

impl BorrowedMsg {
    /// Transform a borrowed message into an owned message by deep copy.
    pub fn to_owned(&self) -> (r: Result<Msg, TibrvError>)
        ensures
            r matches Ok(m) && m@ == self@,
    {
        Ok(clone_msg(&self.inner))
    }
}

impl Decodable for BorrowedMsg {
    open spec fn decode_ok(fm: FieldModel) -> bool {
        fm.data is Msg
    }

    open spec fn decode_err(fm: FieldModel) -> ErrorKind {
        ErrorKind::FieldTypeError
    }

    open spec fn decoded_view(fm: FieldModel) -> MsgModel {
        fm.data->Msg_0
    }

    fn tibrv_try_decode(fld: &MsgField) -> (r: Result<BorrowedMsg, TibrvError>) {
        match &fld.data {
            crate::field::FieldData::Msg(m) => Ok(BorrowedMsg { inner: clone_msg(&**m) }),
            _ => Err(TibrvError { kind: ErrorKind::FieldTypeError }),
        }
    }
}


/// The models of a sequence of messages, in order.
pub open spec fn msgs_model(s: Seq<Msg>) -> Seq<MsgModel>
    decreases s,
{
    if s.len() == 0 {
        Seq::empty()
    } else {
        seq![msg_model(s[0])] + msgs_model(s.drop_first())
    }
}

/// `msgs_model` maps `msg_model` over the sequence: same length, matching
/// elements.
pub proof fn lemma_msgs_model(s: Seq<Msg>)
    ensures
        msgs_model(s).len() == s.len(),
        forall|i: int| 0 <= i < s.len() ==> msgs_model(s)[i] == msg_model(s[i]),
    decreases s.len(),
{
    if s.len() > 0 {
        lemma_msgs_model(s.drop_first());
        assert forall|i: int| 0 <= i < s.len() implies msgs_model(s)[i] == msg_model(
            s[i],
        ) by {
            if i > 0 {
                assert(msgs_model(s)[i] == msgs_model(s.drop_first())[i - 1]);
                assert(s.drop_first()[i - 1] == s[i]);
            }
        }
    }
}

/// Appending a message appends its model.
pub proof fn lemma_msgs_model_push(s: Seq<Msg>, m: Msg)
    ensures
        msgs_model(s.push(m)) == msgs_model(s).push(msg_model(m)),
{
    lemma_msgs_model(s);
    lemma_msgs_model(s.push(m));
    assert(msgs_model(s.push(m)) =~= msgs_model(s).push(msg_model(m)));
}

} // verus!
