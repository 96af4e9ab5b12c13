//! A store that keeps accounts, questions and answers in memory, and
//! behaves towards the handlers as the tables of the service's database do.

use crate::crypt::{argon2_verified, hash_new_password, hash_of, MAX_PASSWORD_LENGTH};
use crate::errors::{DatabaseError, Error};
use crate::types::account::{Account, AccountId, NewAccount};
use crate::types::answers::{Answer, AnswerId, NewAnswer};
use crate::types::questions::{tags_view, NewQuestion, Question, QuestionId, QuestionView};
use vstd::prelude::*;
use vstd::utf8::encode_utf8;

verus! {

/// How many connections to the database the service keeps at most.
pub const DB_MAX_CONNECTIONS: u32 = 5;

/// A stored question and the account that asked it.
#[derive(Debug, Clone)]
pub struct QuestionRow {
    pub question: Question,
    pub account_id: AccountId,
}

/// A stored answer and the account that gave it.
#[derive(Debug, Clone)]
pub struct AnswerRow {
    pub answer: Answer,
    pub account_id: AccountId,
}

/// What a stored question says, and the id of the account that asked it.
pub struct QuestionRecord {
    pub question: QuestionView,
    pub owner: int,
}

impl View for QuestionRow {
    type V = QuestionRecord;

    open spec fn view(&self) -> QuestionRecord {
        QuestionRecord { question: self.question@, owner: self.account_id.0 as int }
    }
}

#[derive(Debug, Clone)]
pub struct Store {
    accounts: Vec<Account>,
    questions: Vec<QuestionRow>,
    answers: Vec<AnswerRow>,
    next_account_id: i32,
    next_question_id: i32,
    next_answer_id: i32,
}

/// The rows of a listing that a limit and an offset select out of `len`
/// rows: their first index, and the index after their last.
pub open spec fn window(len: nat, limit: Option<u32>, offset: u32) -> (int, int) {
    let first = if offset <= len {
        offset as int
    } else {
        len as int
    };
    let end = match limit {
        Some(limit) => if first + limit <= len {
            first + limit
        } else {
            len as int
        },
        None => len as int,
    };
    (first, end)
}

/// Whether `err` is the error of a query that found no row.
pub open spec fn is_row_not_found(err: Error) -> bool {
    err matches Error::DatabaseQueryError(db) && db.code is None && db.message@
        == "no rows returned by a query that expected to return at least one row"@
}

/// Whether `err` is the error of a sequence of ids that is used up.
pub open spec fn is_sequence_exhausted(err: Error) -> bool {
    err matches Error::DatabaseQueryError(db) && db.code matches Some(code) && code@ == "2200H"@
}

fn row_not_found() -> (r: Error)
    ensures
        is_row_not_found(r),
{
    Error::DatabaseQueryError(
        DatabaseError {
            code: None,
            message: "no rows returned by a query that expected to return at least one row".to_owned(),
        },
    )
}

/// An error of a sequence that is used up, or of a query that found no row,
/// is no violated uniqueness constraint: it is answered with status 500.
pub proof fn lemma_plain_database_errors(err: Error)
    requires
        is_sequence_exhausted(err) || is_row_not_found(err),
    ensures
        err.spec_status() == 500,
{
    if is_sequence_exhausted(err) {
        reveal_strlit("2200H");
        reveal_strlit("23505");
        assert("2200H"@[1] != "23505"@[1]);
    }
}

fn sequence_exhausted() -> (r: Error)
    ensures
        is_sequence_exhausted(r),
        r.spec_status() == 500,
{
    let r = Error::DatabaseQueryError(
        DatabaseError {
            code: Some("2200H".to_owned()),
            message: "nextval: reached maximum value of sequence".to_owned(),
        },
    );
    proof {
        lemma_plain_database_errors(r);
    }
    r
}

fn unique_violation() -> (r: Error)
    ensures
        r matches Error::DatabaseQueryError(db) && db.is_unique_violation(),
{
    Error::DatabaseQueryError(
        DatabaseError {
            code: Some("23505".to_owned()),
            message: "duplicate key value violates unique constraint \"accounts_email_key\"".to_owned(),
        },
    )
}

impl Store {
    /// The stored accounts, oldest first.
    pub closed spec fn accounts(&self) -> Seq<Account> {
        self.accounts@
    }

    /// The stored questions with their owners, oldest first.
    pub closed spec fn questions(&self) -> Seq<QuestionRecord> {
        Seq::new(self.questions@.len(), |i: int| self.questions@[i]@)
    }

    /// The stored answers with the accounts that gave them, oldest first.
    pub closed spec fn answers(&self) -> Seq<AnswerRow> {
        self.answers@
    }

    /// The id that the next account gets.
    pub closed spec fn next_account_id(&self) -> int {
        self.next_account_id as int
    }

    /// The id that the next question gets.
    pub closed spec fn next_question_id(&self) -> int {
        self.next_question_id as int
    }

    /// The id that the next answer gets.
    pub closed spec fn next_answer_id(&self) -> int {
        self.next_answer_id as int
    }

    /// No two accounts share an id or an email, no two questions share an
    /// id, no two answers share an id, and every id in use is positive and
    /// below the id that comes next.
    pub open spec fn well_formed(&self) -> bool {
        &&& 1 <= self.next_account_id() <= i32::MAX
        &&& 1 <= self.next_question_id() <= i32::MAX
        &&& 1 <= self.next_answer_id() <= i32::MAX
        &&& forall|i: int|
            0 <= i < self.accounts().len() ==> 1 <= (#[trigger] self.accounts()[i]).id.0
                < self.next_account_id()
        &&& forall|i: int, j: int|
            0 <= i < j < self.accounts().len() ==> (#[trigger] self.accounts()[i]).id != (
            #[trigger] self.accounts()[j]).id && self.accounts()[i].email@
                != self.accounts()[j].email@
        &&& forall|i: int|
            0 <= i < self.questions().len() ==> 1 <= (#[trigger] self.questions()[i]).question.id
                < self.next_question_id()
        &&& forall|i: int, j: int|
            0 <= i < j < self.questions().len() ==> (#[trigger] self.questions()[i]).question.id
                != (#[trigger] self.questions()[j]).question.id
        &&& forall|i: int|
            0 <= i < self.answers().len() ==> 1 <= (#[trigger] self.answers()[i]).answer.id.0
                < self.next_answer_id()
        &&& forall|i: int, j: int|
            0 <= i < j < self.answers().len() ==> (#[trigger] self.answers()[i]).answer.id != (
            #[trigger] self.answers()[j]).answer.id
    }

    /// Whether two stores hold the same rows and give out the same ids next.
    pub open spec fn same_contents(&self, other: &Store) -> bool {
        &&& self.accounts() == other.accounts()
        &&& self.questions() == other.questions()
        &&& self.answers() == other.answers()
        &&& self.next_account_id() == other.next_account_id()
        &&& self.next_question_id() == other.next_question_id()
        &&& self.next_answer_id() == other.next_answer_id()
    }

    /// Whether an account with this email is stored.
    pub open spec fn has_email(&self, email: Seq<char>) -> bool {
        exists|i: int| 0 <= i < self.accounts().len() && (#[trigger] self.accounts()[i]).email@ == email
    }

    /// Whether a question with this id is stored.
    pub open spec fn has_question(&self, id: int) -> bool {
        exists|i: int|
            0 <= i < self.questions().len() && (#[trigger] self.questions()[i]).question.id == id
    }

    /// Whether a question with this id is stored for this account.
    pub open spec fn owns(&self, account_id: int, question_id: int) -> bool {
        exists|i: int|
            0 <= i < self.questions().len() && (#[trigger] self.questions()[i]).question.id
                == question_id && self.questions()[i].owner == account_id
    }

    /// An empty store.
    pub fn new() -> (r: Store)
        ensures
            r.well_formed(),
            r.accounts().len() == 0,
            r.questions().len() == 0,
            r.answers().len() == 0,
            r.next_account_id() == 1,
            r.next_question_id() == 1,
            r.next_answer_id() == 1,
    {
        Store {
            accounts: Vec::new(),
            questions: Vec::new(),
            answers: Vec::new(),
            next_account_id: 1,
            next_question_id: 1,
            next_answer_id: 1,
        }
    }

    fn find_question(&self, question_id: i32) -> (r: Option<usize>)
        ensures
            match r {
                Some(i) => i < self.questions().len() && self.questions()[i as int].question.id
                    == question_id,
                None => !self.has_question(question_id as int),
            },
    {
        let mut i: usize = 0;
        while i < self.questions.len()
            invariant
                i <= self.questions@.len(),
                forall|j: int| 0 <= j < i ==> (#[trigger] self.questions()[j]).question.id != question_id,
            decreases self.questions@.len() - i,
        {
            if self.questions[i].question.id.0 == question_id {
                return Some(i);
            }
            i += 1;
        }
        None
    }

    fn find_email(&self, email: &String) -> (r: Option<usize>)
        ensures
            match r {
                Some(i) => i < self.accounts().len() && self.accounts()[i as int].email@ == email@,
                None => !self.has_email(email@),
            },
    {
        let mut i: usize = 0;
        while i < self.accounts.len()
            invariant
                i <= self.accounts@.len(),
                forall|j: int| 0 <= j < i ==> (#[trigger] self.accounts()[j]).email@ != email@,
            decreases self.accounts@.len() - i,
        {
            if self.accounts[i].email == *email {
                return Some(i);
            }
            i += 1;
        }
        None
    }

    /// The questions that a limit and an offset select, oldest first.
    pub fn get_questions(&self, limit: Option<u32>, offset: u32) -> (r: Result<
        Vec<Question>,
        Error,
    >)
        ensures
            r is Ok,
            ({
                let (first, end) = window(self.questions().len(), limit, offset);
                let found = r->Ok_0;
                &&& found@.len() == end - first
                &&& forall|k: int|
                    0 <= k < found@.len() ==> (#[trigger] found@[k])@ == self.questions()[first
                        + k].question
            }),
    {
        let len = self.questions.len();
        let first: usize = if (offset as usize) <= len {
            offset as usize
        } else {
            len
        };
        let end: usize = match limit {
            Some(limit) => if (limit as usize) <= len - first {
                first + limit as usize
            } else {
                len
            },
            None => len,
        };
        let mut found: Vec<Question> = Vec::new();
        let mut i: usize = first;
        while i < end
            invariant
                first <= i <= end <= len,
                len == self.questions@.len(),
                found@.len() == i - first,
                forall|k: int|
                    0 <= k < found@.len() ==> (#[trigger] found@[k])@ == self.questions()[first
                        + k].question,
            decreases end - i,
        {
            found.push(self.questions[i].question.duplicate());
            i += 1;
        }
        Ok(found)
    }

    /// Stores a question under the next id and returns it as stored.
    pub fn add_question(&mut self, new_question: NewQuestion) -> (r: Result<Question, Error>)
        requires
            old(self).well_formed(),
        ensures
            final(self).well_formed(),
            final(self).accounts() == old(self).accounts(),
            final(self).answers() == old(self).answers(),
            final(self).next_account_id() == old(self).next_account_id(),
            final(self).next_answer_id() == old(self).next_answer_id(),
            r is Ok <==> old(self).next_question_id() < i32::MAX,
            match r {
                Ok(question) => {
                    &&& question@ == (QuestionView {
                        id: old(self).next_question_id(),
                        title: new_question.title@,
                        content: new_question.content@,
                        tags: tags_view(new_question.tags),
                    })
                    &&& final(self).questions() == old(self).questions().push(
                        QuestionRecord { question: question@, owner: new_question.account_id.0 as int },
                    )
                    &&& final(self).next_question_id() == old(self).next_question_id() + 1
                },
                Err(err) => {
                    &&& is_sequence_exhausted(err)
                    &&& final(self).questions() == old(self).questions()
                    &&& final(self).next_question_id() == old(self).next_question_id()
                },
            },
    {
        if self.next_question_id == i32::MAX {
            return Err(sequence_exhausted());
        }
        let question = Question {
            id: QuestionId(self.next_question_id),
            title: new_question.title,
            content: new_question.content,
            tags: new_question.tags,
        };
        let stored = question.duplicate();
        self.questions.push(QuestionRow { question, account_id: new_question.account_id });
        self.next_question_id = self.next_question_id + 1;
        assert(self.questions() =~= old(self).questions().push(
            QuestionRecord { question: stored@, owner: new_question.account_id.0 as int },
        ));
        assert(self.accounts() == old(self).accounts());
        assert(self.answers() == old(self).answers());
        Ok(stored)
    }

    /// The question with this id.
    pub fn get_question(&self, question_id: i32) -> (r: Result<Question, Error>)
        ensures
            r is Ok <==> self.has_question(question_id as int),
            match r {
                Ok(question) => exists|i: int|
                    0 <= i < self.questions().len() && (#[trigger] self.questions()[i]).question
                        == question@ && question@.id == question_id,
                Err(err) => err == Error::QuestionNotFound,
            },
    {
        match self.find_question(question_id) {
            Some(i) => {
                let question = self.questions[i].question.duplicate();
                assert(self.questions()[i as int].question == question@);
                Ok(question)
            },
            None => Err(Error::QuestionNotFound),
        }
    }

    /// Gives the question with the id `question_id` the title, the content
    /// and the tags of `question`, and returns it as stored. The id and the
    /// owner stay, and so does every other question.
    pub fn update_question(&mut self, question: Question, question_id: i32) -> (r: Result<
        Question,
        Error,
    >)
        requires
            old(self).well_formed(),
        ensures
            final(self).well_formed(),
            final(self).accounts() == old(self).accounts(),
            final(self).answers() == old(self).answers(),
            final(self).next_account_id() == old(self).next_account_id(),
            final(self).next_question_id() == old(self).next_question_id(),
            final(self).next_answer_id() == old(self).next_answer_id(),
            r is Ok <==> old(self).has_question(question_id as int),
            match r {
                Ok(updated) => {
                    &&& updated@ == (QuestionView { id: question_id as int, ..question@ })
                    &&& exists|i: int|
                        0 <= i < old(self).questions().len()
                            && (#[trigger] old(self).questions()[i]).question.id == question_id
                            && final(self).questions() == old(self).questions().update(
                            i,
                            QuestionRecord {
                                question: updated@,
                                owner: old(self).questions()[i].owner,
                            },
                        )
                },
                Err(err) => err == Error::QuestionNotFound && final(self).same_contents(old(self)),
            },
    {
        let i = match self.find_question(question_id) {
            Some(i) => i,
            None => {
                return Err(Error::QuestionNotFound);
            },
        };
        let account_id = self.questions[i].account_id;
        let updated = Question {
            id: QuestionId(question_id),
            title: question.title,
            content: question.content,
            tags: question.tags,
        };
        let stored = updated.duplicate();
        self.questions.set(i, QuestionRow { question: updated, account_id });
        assert(self.questions() =~= old(self).questions().update(
            i as int,
            QuestionRecord { question: stored@, owner: old(self).questions()[i as int].owner },
        ));
        assert(old(self).questions()[i as int].question.id == question_id);
        assert(self.accounts() == old(self).accounts());
        assert(self.answers() == old(self).answers());
        Ok(stored)
    }

    /// Removes the question with this id, if there is one. Every other
    /// question stays, in its order.
    pub fn delete_question(&mut self, question_id: i32) -> (r: Result<bool, Error>)
        requires
            old(self).well_formed(),
        ensures
            final(self).well_formed(),
            final(self).accounts() == old(self).accounts(),
            final(self).answers() == old(self).answers(),
            final(self).next_account_id() == old(self).next_account_id(),
            final(self).next_question_id() == old(self).next_question_id(),
            final(self).next_answer_id() == old(self).next_answer_id(),
            r == Ok::<bool, Error>(true),
            !final(self).has_question(question_id as int),
            final(self).questions() == old(self).questions().filter(
                |record: QuestionRecord| record.question.id != question_id,
            ),
    {
        match self.find_question(question_id) {
            Some(i) => {
                self.questions.remove(i);
                proof {
                    let before = old(self).questions();
                    let after = self.questions();
                    assert(after =~= before.remove(i as int));
                    lemma_filter_removes_one(before, i as int, question_id as int);
                    assert forall|j: int| 0 <= j < after.len() implies (#[trigger] after[j]).question.id
                        != question_id by {
                        if j < i {
                            assert(after[j] == before[j]);
                        } else {
                            assert(after[j] == before[j + 1]);
                        }
                    }
                }
            },
            None => {
                proof {
                    lemma_filter_keeps_all(self.questions(), question_id as int);
                }
            },
        }
        assert(self.accounts() == old(self).accounts());
        assert(self.answers() == old(self).answers());
        Ok(true)
    }

    /// Stores an answer under the next id and returns it as stored.
    pub fn add_answer(&mut self, new_answer: NewAnswer) -> (r: Result<Answer, Error>)
        requires
            old(self).well_formed(),
        ensures
            final(self).well_formed(),
            final(self).accounts() == old(self).accounts(),
            final(self).questions() == old(self).questions(),
            final(self).next_account_id() == old(self).next_account_id(),
            final(self).next_question_id() == old(self).next_question_id(),
            r is Ok <==> old(self).next_answer_id() < i32::MAX,
            match r {
                Ok(answer) => {
                    &&& answer == (Answer {
                        id: AnswerId(old(self).next_answer_id() as i32),
                        content: new_answer.content,
                        question_id: new_answer.question_id,
                    })
                    &&& final(self).answers() == old(self).answers().push(
                        AnswerRow { answer, account_id: new_answer.account_id },
                    )
                    &&& final(self).next_answer_id() == old(self).next_answer_id() + 1
                },
                Err(err) => is_sequence_exhausted(err) && final(self).same_contents(old(self)),
            },
    {
        if self.next_answer_id == i32::MAX {
            return Err(sequence_exhausted());
        }
        let answer = Answer {
            id: AnswerId(self.next_answer_id),
            content: new_answer.content,
            question_id: new_answer.question_id,
        };
        let stored = Answer {
            id: answer.id,
            content: answer.content.clone(),
            question_id: answer.question_id,
        };
        self.answers.push(AnswerRow { answer, account_id: new_answer.account_id });
        self.next_answer_id = self.next_answer_id + 1;
        assert(self.answers() == old(self).answers().push(
            AnswerRow { answer: stored, account_id: new_answer.account_id },
        ));
        assert(self.accounts() == old(self).accounts());
        assert(self.questions() == old(self).questions());
        Ok(stored)
    }

    /// Opens an account: stores the email with the hash of the password
    /// under the next id, unless the password is too long to be hashed or
    /// the email is taken.
    pub fn add_account(&mut self, new_account: NewAccount) -> (r: Result<Account, Error>)
        requires
            old(self).well_formed(),
        ensures
            final(self).well_formed(),
            final(self).questions() == old(self).questions(),
            final(self).answers() == old(self).answers(),
            final(self).next_question_id() == old(self).next_question_id(),
            final(self).next_answer_id() == old(self).next_answer_id(),
            r is Ok <==> encode_utf8(new_account.password@).len() <= MAX_PASSWORD_LENGTH
                && !old(self).has_email(new_account.email@) && old(self).next_account_id()
                < i32::MAX,
            match r {
                Ok(account) => {
                    &&& account.id.0 == old(self).next_account_id()
                    &&& account.email == new_account.email
                    &&& hash_of(account.password@, encode_utf8(new_account.password@))
                    &&& argon2_verified(account.password@, encode_utf8(new_account.password@))
                        == Some(true)
                    &&& final(self).accounts() == old(self).accounts().push(account)
                    &&& final(self).next_account_id() == old(self).next_account_id() + 1
                },
                Err(err) => {
                    &&& final(self).same_contents(old(self))
                    &&& if encode_utf8(new_account.password@).len() > MAX_PASSWORD_LENGTH {
                        err matches Error::ArgonLibraryError(reason) && reason@
                            == "Password is too long"@
                    } else {
                        &&& err is DatabaseQueryError
                        &&& old(self).has_email(new_account.email@)
                            <==> err->DatabaseQueryError_0.is_unique_violation()
                    }
                },
            },
    {
        if new_account.password.as_str().as_bytes().len() > MAX_PASSWORD_LENGTH {
            return Err(Error::ArgonLibraryError("Password is too long".to_owned()));
        }
        if self.find_email(&new_account.email).is_some() {
            return Err(unique_violation());
        }
        if self.next_account_id == i32::MAX {
            return Err(sequence_exhausted());
        }
        let hashed_password = match hash_new_password(new_account.password.as_str()) {
            Ok(hashed_password) => hashed_password,
            Err(reason) => {
                return Err(Error::ArgonLibraryError(reason));
            },
        };
        let account = Account {
            id: AccountId(self.next_account_id),
            email: new_account.email,
            password: hashed_password,
        };
        let stored = account.duplicate();
        self.accounts.push(account);
        self.next_account_id = self.next_account_id + 1;
        assert(self.accounts() == old(self).accounts().push(stored));
        assert(self.questions() == old(self).questions());
        assert(self.answers() == old(self).answers());
        Ok(stored)
    }

    /// The account with this email.
    pub fn get_account(&self, email: String) -> (r: Result<Account, Error>)
        ensures
            r is Ok <==> self.has_email(email@),
            match r {
                Ok(account) => exists|i: int|
                    0 <= i < self.accounts().len() && (#[trigger] self.accounts()[i]) == account
                        && account.email@ == email@,
                Err(err) => is_row_not_found(err),
            },
    {
        match self.find_email(&email) {
            Some(i) => Ok(self.accounts[i].duplicate()),
            None => Err(row_not_found()),
        }
    }

    /// Whether the question with this id is stored for this account. A
    /// question that is not stored belongs to nobody.
    pub fn is_question_owner(&self, question_id: i32, account_id: i32) -> (r: Result<bool, Error>)
        ensures
            r == Ok::<bool, Error>(self.owns(account_id as int, question_id as int)),
            !self.has_question(question_id as int) ==> r == Ok::<bool, Error>(false),
    {
        let mut i: usize = 0;
        while i < self.questions.len()
            invariant
                i <= self.questions@.len(),
                forall|j: int|
                    0 <= j < i ==> !((#[trigger] self.questions()[j]).question.id == question_id
                        && self.questions()[j].owner == account_id),
            decreases self.questions@.len() - i,
        {
            let row = &self.questions[i];
            if row.question.id.0 == question_id && row.account_id.0 == account_id {
                assert(self.questions()[i as int].question.id == question_id);
                return Ok(true);
            }
            i += 1;
        }
        Ok(false)
    }
}

/// Filtering out an id that no record has keeps every record.
proof fn lemma_filter_keeps_all(records: Seq<QuestionRecord>, id: int)
    requires
        forall|i: int| 0 <= i < records.len() ==> (#[trigger] records[i]).question.id != id,
    ensures
        records.filter(|record: QuestionRecord| record.question.id != id) == records,
    decreases records.len(),
{
    let keep = |record: QuestionRecord| record.question.id != id;
    reveal(Seq::filter);
    if records.len() > 0 {
        lemma_filter_keeps_all(records.drop_last(), id);
        assert(records.drop_last().push(records.last()) =~= records);
    }
    assert(records.filter(keep) =~= records);
}

/// Filtering out the id of exactly one record removes that record.
proof fn lemma_filter_removes_one(records: Seq<QuestionRecord>, at: int, id: int)
    requires
        0 <= at < records.len(),
        records[at].question.id == id,
        forall|i: int| 0 <= i < records.len() && i != at ==> (#[trigger] records[i]).question.id != id,
    ensures
        records.filter(|record: QuestionRecord| record.question.id != id) == records.remove(at),
    decreases records.len(),
{
    reveal(Seq::filter);
    if at == records.len() - 1 {
        lemma_filter_keeps_all(records.drop_last(), id);
        assert(records.remove(at) =~= records.drop_last());
    } else {
        lemma_filter_removes_one(records.drop_last(), at, id);
        assert(records.remove(at) =~= records.drop_last().remove(at).push(records.last()));
    }
}

} // verus!
