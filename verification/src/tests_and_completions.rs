//! The record store: tests and completions, and the query that gathers a
//! user's tests each with its completions.

use vstd::prelude::*;
use crate::error::DieselError;
use crate::models::{Completion, Test};
use crate::protocol::{
    date_is_wf, tacs_wf, CompletionData, TestAndCompletions, TestData,
};

verus! {

/// The client-visible data of a stored test.
pub open spec fn test_data_of(t: Test) -> TestData {
    TestData {
        subject: t.subject,
        topic: t.topic,
        date_or_id: t.date_or_id,
        qualification_level: t.qualification_level,
        exam_board: t.exam_board,
        paper_link: t.paper_link,
        mark_scheme_link: t.mark_scheme_link,
        comments: t.comments,
    }
}

/// The client-visible data of a stored completion.
pub open spec fn completion_data_of(c: Completion) -> CompletionData {
    CompletionData {
        achieved_mark: c.achieved_mark,
        total_marks: c.total_marks,
        date: c.date,
        comments: c.comments,
    }
}

/// The tests owned by `uid`, in store order.
pub open spec fn tests_of(tests: Seq<Test>, uid: Seq<char>) -> Seq<Test>
    decreases tests.len(),
{
    if tests.len() == 0 {
        Seq::empty()
    } else {
        (if tests[0].user_id@ == uid {
            seq![tests[0]]
        } else {
            Seq::empty()
        }) + tests_of(tests.drop_first(), uid)
    }
}

/// The completions of the test with ID `tid`, in store order.
pub open spec fn completions_of(cs: Seq<Completion>, tid: i32) -> Seq<Completion>
    decreases cs.len(),
{
    if cs.len() == 0 {
        Seq::empty()
    } else {
        (if cs[0].test_id == tid {
            seq![cs[0]]
        } else {
            Seq::empty()
        }) + completions_of(cs.drop_first(), tid)
    }
}

/// The client-visible completions of the test with ID `tid`, in store order.
pub open spec fn completion_datas_of(cs: Seq<Completion>, tid: i32) -> Seq<CompletionData>
    decreases cs.len(),
{
    if cs.len() == 0 {
        Seq::empty()
    } else {
        (if cs[0].test_id == tid {
            seq![completion_data_of(cs[0])]
        } else {
            Seq::empty()
        }) + completion_datas_of(cs.drop_first(), tid)
    }
}

/// One group per test owned by `uid`, in store order: the test's data paired
/// with its completions, grouped by the test's primary key.
pub open spec fn groups_of(tests: Seq<Test>, cs: Seq<Completion>, uid: Seq<char>) -> Seq<
    (TestData, Seq<CompletionData>),
>
    decreases tests.len(),
{
    if tests.len() == 0 {
        Seq::empty()
    } else {
        (if tests[0].user_id@ == uid {
            seq![(test_data_of(tests[0]), completion_datas_of(cs, tests[0].id))]
        } else {
            Seq::empty()
        }) + groups_of(tests.drop_first(), cs, uid)
    }
}

/// `completion_datas_of` distributes over concatenation.
proof fn lemma_cd_app(a: Seq<Completion>, b: Seq<Completion>, tid: i32)
    ensures
        completion_datas_of(a + b, tid) == completion_datas_of(a, tid) + completion_datas_of(
            b,
            tid,
        ),
    decreases a.len(),
{
    if a.len() == 0 {
        assert(a + b =~= b);
        assert(completion_datas_of(a, tid) + completion_datas_of(b, tid) =~= completion_datas_of(
            b,
            tid,
        ));
    } else {
        lemma_cd_app(a.drop_first(), b, tid);
        assert((a + b).drop_first() =~= a.drop_first() + b);
        assert(completion_datas_of(a + b, tid) =~= completion_datas_of(a, tid)
            + completion_datas_of(b, tid));
    }
}

/// `groups_of` distributes over concatenation of the test list.
proof fn lemma_groups_app(a: Seq<Test>, b: Seq<Test>, cs: Seq<Completion>, uid: Seq<char>)
    ensures
        groups_of(a + b, cs, uid) == groups_of(a, cs, uid) + groups_of(b, cs, uid),
    decreases a.len(),
{
    if a.len() == 0 {
        assert(a + b =~= b);
        assert(groups_of(a, cs, uid) + groups_of(b, cs, uid) =~= groups_of(b, cs, uid));
    } else {
        lemma_groups_app(a.drop_first(), b, cs, uid);
        assert((a + b).drop_first() =~= a.drop_first() + b);
        assert(groups_of(a + b, cs, uid) =~= groups_of(a, cs, uid) + groups_of(b, cs, uid));
    }
}

/// Every date in the store's completions names a day that exists.
pub open spec fn completion_dates_wf(cs: Seq<Completion>) -> bool {
    forall|k: int|
        0 <= k < cs.len() ==> ((#[trigger] cs[k]).date matches Some(d) ==> d.wf())
}


impl From<Test> for TestData {
    /// The client-visible data of a stored test: the ID and owner stay
    /// behind.
    fn from(value: Test) -> (r: Self) {
        let Test {
            subject,
            topic,
            date_or_id,
            qualification_level,
            exam_board,
            paper_link,
            mark_scheme_link,
            comments,
            ..
        } = value;
        TestData {
            subject,
            topic,
            date_or_id,
            qualification_level,
            exam_board,
            paper_link,
            mark_scheme_link,
            comments,
        }
    }
}

impl vstd::std_specs::convert::FromSpecImpl<Test> for TestData {
    open spec fn obeys_from_spec() -> bool {
        true
    }

    open spec fn from_spec(t: Test) -> Self {
        test_data_of(t)
    }
}

impl From<Completion> for CompletionData {
    /// The client-visible data of a stored completion: the ID and test
    /// reference stay behind.
    fn from(value: Completion) -> (r: Self) {
        let Completion { achieved_mark, total_marks, date, comments, .. } = value;
        CompletionData { achieved_mark, total_marks, date, comments }
    }
}

impl vstd::std_specs::convert::FromSpecImpl<Completion> for CompletionData {
    open spec fn obeys_from_spec() -> bool {
        true
    }

    open spec fn from_spec(c: Completion) -> Self {
        completion_data_of(c)
    }
}

/// The record store: the stored tests and completions, in insertion order.
/// Test and completion IDs are unique, every completion references a stored
/// test, marks are non-negative, and every date names a day that exists.
pub struct RecordStore {
    tests: Vec<Test>,
    completions: Vec<Completion>,
}

impl View for RecordStore {
    type V = (Seq<Test>, Seq<Completion>);

    closed spec fn view(&self) -> (Seq<Test>, Seq<Completion>) {
        (self.tests@, self.completions@)
    }
}

impl RecordStore {
    #[verifier::type_invariant]
    closed spec fn wf(self) -> bool {
        &&& forall|k1: int, k2: int|
            0 <= k1 < k2 < self.tests@.len() ==> (#[trigger] self.tests@[k1].id) != (
            #[trigger] self.tests@[k2].id)
        &&& forall|k1: int, k2: int|
            0 <= k1 < k2 < self.completions@.len() ==> (#[trigger] self.completions@[k1].id) != (
            #[trigger] self.completions@[k2].id)
        &&& forall|k: int|
            0 <= k < self.completions@.len() ==> (#[trigger] self.completions@[k]).achieved_mark
                >= 0 && self.completions@[k].total_marks >= 0
        &&& completion_dates_wf(self.completions@)
    }

    /// An empty store.
    pub fn new() -> (s: Self)
        ensures
            s@.0 == Seq::<Test>::empty(),
            s@.1 == Seq::<Completion>::empty(),
    {
        let s = RecordStore { tests: Vec::new(), completions: Vec::new() };
        proof {
            assert(s.tests@ =~= Seq::<Test>::empty());
            assert(s.completions@ =~= Seq::<Completion>::empty());
        }
        s
    }

    /// Whether a stored test carries the given ID.
    fn has_test_id(&self, id: i32) -> (r: bool)
        ensures
            r == exists|j: int| 0 <= j < self@.0.len() && (#[trigger] self@.0[j].id) == id,
    {
        let n = self.tests.len();
        let mut j: usize = 0;
        while j < n
            invariant
                j <= n,
                n == self.tests@.len(),
                forall|k: int| 0 <= k < j ==> (#[trigger] self.tests@[k].id) != id,
            decreases n - j,
        {
            if self.tests[j].id == id {
                return true;
            }
            j = j + 1;
        }
        false
    }

    /// Whether a stored completion carries the given ID.
    fn has_completion_id(&self, id: i32) -> (r: bool)
        ensures
            r == exists|j: int| 0 <= j < self@.1.len() && (#[trigger] self@.1[j].id) == id,
    {
        let n = self.completions.len();
        let mut j: usize = 0;
        while j < n
            invariant
                j <= n,
                n == self.completions@.len(),
                forall|k: int| 0 <= k < j ==> (#[trigger] self.completions@[k].id) != id,
            decreases n - j,
        {
            if self.completions[j].id == id {
                return true;
            }
            j = j + 1;
        }
        false
    }

    /// Insert a test. Fails, leaving the store unchanged, when the ID is
    /// taken.
    pub fn insert_test(&mut self, t: Test) -> (r: bool)
        ensures
            r ==> final(self)@.0 == old(self)@.0.push(t) && final(self)@.1 == old(self)@.1,
            !r ==> final(self)@ == old(self)@,
            r == !exists|j: int| 0 <= j < old(self)@.0.len() && (#[trigger] old(self)@.0[j].id)
                == t.id,
    {
        proof {
            use_type_invariant(&*self);
        }
        if self.has_test_id(t.id) {
            return false;
        }
        let mut tests: Vec<Test> = Vec::new();
        std::mem::swap(&mut tests, &mut self.tests);
        tests.push(t);
        std::mem::swap(&mut tests, &mut self.tests);
        true
    }

    /// Insert a completion. Fails, leaving the store unchanged, when the ID
    /// is taken, the referenced test does not exist, a mark is negative, or
    /// the date names no existing day.
    pub fn insert_completion(&mut self, c: Completion) -> (r: bool)
        ensures
            r ==> final(self)@.1 == old(self)@.1.push(c) && final(self)@.0 == old(self)@.0,
            !r ==> final(self)@ == old(self)@,
            r == ({
                &&& !exists|j: int|
                    0 <= j < old(self)@.1.len() && (#[trigger] old(self)@.1[j].id) == c.id
                &&& exists|j: int|
                    0 <= j < old(self)@.0.len() && (#[trigger] old(self)@.0[j].id) == c.test_id
                &&& c.achieved_mark >= 0
                &&& c.total_marks >= 0
                &&& (c.date matches Some(d) ==> d.wf())
            }),
    {
        proof {
            use_type_invariant(&*self);
        }
        if self.has_completion_id(c.id) {
            return false;
        }
        if !self.has_test_id(c.test_id) {
            return false;
        }
        if c.achieved_mark < 0 || c.total_marks < 0 {
            return false;
        }
        if let Some(d) = &c.date {
            if !date_is_wf(d) {
                return false;
            }
        }
        let mut completions: Vec<Completion> = Vec::new();
        std::mem::swap(&mut completions, &mut self.completions);
        completions.push(c);
        std::mem::swap(&mut completions, &mut self.completions);
        true
    }

    /// The client-visible data of one stored test, field by field.
    fn test_data(t: &Test) -> (r: TestData)
        ensures
            r == test_data_of(*t),
    {
        TestData {
            subject: t.subject.clone(),
            topic: match &t.topic {
                None => None,
                Some(s) => Some(s.clone()),
            },
            date_or_id: t.date_or_id.clone(),
            qualification_level: match &t.qualification_level {
                None => None,
                Some(s) => Some(s.clone()),
            },
            exam_board: match &t.exam_board {
                None => None,
                Some(s) => Some(s.clone()),
            },
            paper_link: match &t.paper_link {
                None => None,
                Some(s) => Some(s.clone()),
            },
            mark_scheme_link: match &t.mark_scheme_link {
                None => None,
                Some(s) => Some(s.clone()),
            },
            comments: match &t.comments {
                None => None,
                Some(s) => Some(s.clone()),
            },
        }
    }

    /// The client-visible data of one stored completion.
    fn completion_data(c: &Completion) -> (r: CompletionData)
        ensures
            r == completion_data_of(*c),
    {
        CompletionData {
            achieved_mark: c.achieved_mark,
            total_marks: c.total_marks,
            date: c.date,
            comments: match &c.comments {
                None => None,
                Some(s) => Some(s.clone()),
            },
        }
    }

    /// The client-visible completions of the test with ID `tid`, in store
    /// order.
    fn completions_for(&self, tid: i32) -> (r: Vec<CompletionData>)
        ensures
            r@ == completion_datas_of(self@.1, tid),
    {
        let n = self.completions.len();
        let mut out: Vec<CompletionData> = Vec::new();
        let mut j: usize = 0;
        proof {
            assert(self.completions@.subrange(0, 0) =~= Seq::<Completion>::empty());
            assert(out@ =~= completion_datas_of(self.completions@.subrange(0, 0), tid));
        }
        while j < n
            invariant
                j <= n,
                n == self.completions@.len(),
                out@ == completion_datas_of(self.completions@.subrange(0, j as int), tid),
            decreases n - j,
        {
            let c = &self.completions[j];
            let ghost pre = self.completions@.subrange(0, j as int);
            if c.test_id == tid {
                out.push(Self::completion_data(c));
            }
            j = j + 1;
            proof {
                let cur = self.completions@.subrange(0, j as int);
                assert(cur =~= pre + seq![self.completions@[j - 1]]);
                lemma_cd_app(pre, seq![self.completions@[j - 1]], tid);
                assert(seq![self.completions@[j - 1]].drop_first() =~= Seq::<Completion>::empty());
                assert(completion_datas_of(Seq::<Completion>::empty(), tid) == Seq::<
                    CompletionData,
                >::empty());
                assert(out@ =~= completion_datas_of(cur, tid));
            }
        }
        proof {
            assert(self.completions@.subrange(0, n as int) =~= self.completions@);
        }
        out
    }

    /// For the given user, find all the tests they own and pair each with
    /// all the completions that reference it, grouped by the test's primary
    /// key. Never fails; a user with no tests gets the empty list.
    pub fn get_all_tests_and_completions_for_user(&self, user_id: &str) -> (r: Result<
        Vec<TestAndCompletions>,
        DieselError,
    >)
        ensures
            r matches Ok(list) && ({
                let groups = groups_of(self@.0, self@.1, user_id@);
                &&& list@.len() == groups.len()
                &&& forall|k: int|
                    0 <= k < groups.len() ==> (#[trigger] list@[k]).0 == groups[k].0
                        && list@[k].1@ == groups[k].1
            }),
            r matches Ok(list) ==> tacs_wf(list.deep_view()),
    {
        proof {
            use_type_invariant(&*self);
        }
        let n = self.tests.len();
        let mut list: Vec<TestAndCompletions> = Vec::new();
        let mut i: usize = 0;
        proof {
            assert(self.tests@.subrange(0, 0) =~= Seq::<Test>::empty());
        }
        while i < n
            invariant
                i <= n,
                n == self.tests@.len(),
                completion_dates_wf(self.completions@),
                ({
                    let groups = groups_of(
                        self.tests@.subrange(0, i as int),
                        self.completions@,
                        user_id@,
                    );
                    &&& list@.len() == groups.len()
                    &&& forall|k: int|
                        0 <= k < groups.len() ==> (#[trigger] list@[k]).0 == groups[k].0
                            && list@[k].1@ == groups[k].1
                }),
            decreases n - i,
        {
            let t = &self.tests[i];
            let ghost pre = self.tests@.subrange(0, i as int);
            let ghost prelist = list@;
            if string_eq(&t.user_id, user_id) {
                let data = Self::test_data(t);
                let cds = self.completions_for(t.id);
                list.push((data, cds));
            }
            i = i + 1;
            proof {
                let cur = self.tests@.subrange(0, i as int);
                let one = seq![self.tests@[i - 1]];
                assert(cur =~= pre + one);
                lemma_groups_app(pre, one, self.completions@, user_id@);
                assert(one.drop_first() =~= Seq::<Test>::empty());
                assert(groups_of(Seq::<Test>::empty(), self.completions@, user_id@) == Seq::<
                    (TestData, Seq<CompletionData>),
                >::empty());
                let gpre = groups_of(pre, self.completions@, user_id@);
                let gcur = groups_of(cur, self.completions@, user_id@);
                if self.tests@[i - 1].user_id@ == user_id@ {
                    assert(gcur =~= gpre.push(
                        (
                            test_data_of(self.tests@[i - 1]),
                            completion_datas_of(self.completions@, self.tests@[i - 1].id),
                        ),
                    ));
                } else {
                    assert(gcur =~= gpre);
                }
                assert forall|k: int|
                    0 <= k < gcur.len() implies (#[trigger] list@[k]).0 == gcur[k].0 && list@[k].1@
                    == gcur[k].1 by {
                    if k < gpre.len() {
                        assert(list@[k] == prelist[k]);
                        assert(gcur[k] == gpre[k]);
                    }
                }
            }
        }
        proof {
            assert(self.tests@.subrange(0, n as int) =~= self.tests@);
            lemma_groups_dates_wf(self.tests@, self.completions@, user_id@);
            let groups = groups_of(self@.0, self@.1, user_id@);
            assert forall|k: int, j: int|
                0 <= k < list.deep_view().len() && 0 <= j < list.deep_view()[k].1.len() implies ((
            #[trigger] list.deep_view()[k].1[j]).date matches Some(d) ==> d.wf()) by {
                assert(list.deep_view()[k].1[j] == list@[k].1@[j]@);
                assert(list@[k].1@[j] == groups[k].1[j]);
            }
        }
        Ok(list)
    }
}

/// Comparing a `String` field with a `&str` argument.
fn string_eq(a: &String, b: &str) -> (r: bool)
    ensures
        r == (a@ == b@),
{
    let bs: String = b.to_owned();
    *a == bs
}

/// All dates in every group come from the store's completions, so they name
/// existing days when the store's do.
pub proof fn lemma_groups_dates_wf(tests: Seq<Test>, cs: Seq<Completion>, uid: Seq<char>)
    requires
        completion_dates_wf(cs),
    ensures
        forall|k: int, j: int|
            0 <= k < groups_of(tests, cs, uid).len() && 0 <= j < groups_of(tests, cs, uid)[k].1.len()
                ==> ((#[trigger] groups_of(tests, cs, uid)[k].1[j]).date matches Some(d)
                ==> d.wf()),
    decreases tests.len(),
{
    if tests.len() > 0 {
        lemma_groups_dates_wf(tests.drop_first(), cs, uid);
        lemma_cd_dates_wf(cs, tests[0].id);
        let groups = groups_of(tests, cs, uid);
        let rest = groups_of(tests.drop_first(), cs, uid);
        assert forall|k: int, j: int|
            0 <= k < groups.len() && 0 <= j < groups[k].1.len() implies ((
        #[trigger] groups[k].1[j]).date matches Some(d) ==> d.wf()) by {
            if tests[0].user_id@ == uid {
                if k > 0 {
                    assert(groups[k] == rest[k - 1]);
                }
            } else {
                assert(groups[k] == rest[k]);
            }
        }
    }
}

/// The dates of a test's completions are among the store's dates.
proof fn lemma_cd_dates_wf(cs: Seq<Completion>, tid: i32)
    requires
        completion_dates_wf(cs),
    ensures
        forall|j: int|
            0 <= j < completion_datas_of(cs, tid).len() ==> ((#[trigger] completion_datas_of(
                cs,
                tid,
            )[j]).date matches Some(d) ==> d.wf()),
    decreases cs.len(),
{
    if cs.len() > 0 {
        assert(completion_dates_wf(cs.drop_first())) by {
            assert(forall|k: int|
                0 <= k < cs.drop_first().len() ==> cs.drop_first()[k] == cs[k + 1]);
        }
        lemma_cd_dates_wf(cs.drop_first(), tid);
        let cds = completion_datas_of(cs, tid);
        let rest = completion_datas_of(cs.drop_first(), tid);
        assert forall|j: int|
            0 <= j < cds.len() implies ((#[trigger] cds[j]).date matches Some(d) ==> d.wf()) by {
            if cs[0].test_id == tid {
                if j > 0 {
                    assert(cds[j] == rest[j - 1]);
                }
            } else {
                assert(cds[j] == rest[j]);
            }
        }
    }
}

/// The pointwise content of the groups: one group per owned test, in order,
/// each pairing the test's data with its completions.
pub proof fn lemma_groups_pointwise(tests: Seq<Test>, cs: Seq<Completion>, uid: Seq<char>)
    ensures
        groups_of(tests, cs, uid).len() == tests_of(tests, uid).len(),
        forall|k: int|
            0 <= k < tests_of(tests, uid).len() ==> (#[trigger] groups_of(tests, cs, uid)[k]) == (
            test_data_of(tests_of(tests, uid)[k]), completion_datas_of(
                cs,
                tests_of(tests, uid)[k].id,
            )),
    decreases tests.len(),
{
    if tests.len() > 0 {
        lemma_groups_pointwise(tests.drop_first(), cs, uid);
        let groups = groups_of(tests, cs, uid);
        let owned = tests_of(tests, uid);
        let grest = groups_of(tests.drop_first(), cs, uid);
        let orest = tests_of(tests.drop_first(), uid);
        assert forall|k: int|
            0 <= k < owned.len() implies (#[trigger] groups[k]) == (test_data_of(owned[k]),
        completion_datas_of(cs, owned[k].id)) by {
            if tests[0].user_id@ == uid {
                if k > 0 {
                    assert(groups[k] == grest[k - 1]);
                    assert(owned[k] == orest[k - 1]);
                }
            } else {
                assert(groups[k] == grest[k]);
                assert(owned[k] == orest[k]);
            }
        }
    }
}

/// Law: a user who owns no stored test gets the empty list — not an error.
pub proof fn lemma_no_tests_empty_list(tests: Seq<Test>, cs: Seq<Completion>, uid: Seq<char>)
    requires
        forall|k: int| 0 <= k < tests.len() ==> (#[trigger] tests[k].user_id@) != uid,
    ensures
        groups_of(tests, cs, uid) == Seq::<(TestData, Seq<CompletionData>)>::empty(),
    decreases tests.len(),
{
    if tests.len() > 0 {
        assert(forall|k: int|
            0 <= k < tests.drop_first().len() ==> tests.drop_first()[k] == tests[k + 1]);
        lemma_no_tests_empty_list(tests.drop_first(), cs, uid);
        assert(groups_of(tests, cs, uid) =~= Seq::<(TestData, Seq<CompletionData>)>::empty());
    }
}

/// Law: a user with exactly one stored test that has exactly two completions
/// gets exactly one group, holding both completions.
pub proof fn lemma_one_test_two_completions(
    tests: Seq<Test>,
    cs: Seq<Completion>,
    uid: Seq<char>,
    t: Test,
    c1: Completion,
    c2: Completion,
)
    requires
        tests_of(tests, uid) == seq![t],
        completions_of(cs, t.id) == seq![c1, c2],
    ensures
        groups_of(tests, cs, uid) == seq![
            (test_data_of(t), seq![completion_data_of(c1), completion_data_of(c2)]),
        ],
{
    lemma_groups_pointwise(tests, cs, uid);
    lemma_cd_pointwise(cs, t.id);
    assert(completion_datas_of(cs, t.id) =~= seq![
        completion_data_of(c1),
        completion_data_of(c2),
    ]);
    assert(groups_of(tests, cs, uid) =~= seq![
        (test_data_of(t), seq![completion_data_of(c1), completion_data_of(c2)]),
    ]);
}

/// The client-visible completions are the stored completions of the test,
/// element for element.
pub proof fn lemma_cd_pointwise(cs: Seq<Completion>, tid: i32)
    ensures
        completion_datas_of(cs, tid).len() == completions_of(cs, tid).len(),
        forall|j: int|
            0 <= j < completions_of(cs, tid).len() ==> (#[trigger] completion_datas_of(cs, tid)[j])
                == completion_data_of(completions_of(cs, tid)[j]),
    decreases cs.len(),
{
    if cs.len() > 0 {
        lemma_cd_pointwise(cs.drop_first(), tid);
        let cds = completion_datas_of(cs, tid);
        let raw = completions_of(cs, tid);
        let cdrest = completion_datas_of(cs.drop_first(), tid);
        let rawrest = completions_of(cs.drop_first(), tid);
        assert forall|j: int|
            0 <= j < raw.len() implies (#[trigger] cds[j]) == completion_data_of(raw[j]) by {
            if cs[0].test_id == tid {
                if j > 0 {
                    assert(cds[j] == cdrest[j - 1]);
                    assert(raw[j] == rawrest[j - 1]);
                }
            } else {
                assert(cds[j] == cdrest[j]);
                assert(raw[j] == rawrest[j]);
            }
        }
    }
}

} // verus!
