use vstd::prelude::*;
use vstd::seq_lib::{to_multiset_build, to_multiset_insert};

use crate::courses::attended_by;
use crate::entities::{CourseView, LectureView, UserView};
use crate::lectures::{enrolled_lectures, is_enrolled, newest_first, slot, visible_to};
use crate::store::{course_enrolled, course_withdrawn, without, DbModel};

verus! {

/// A username is taken once: a user whose username is free is admitted, the
/// store stays well formed, and from then on every user with that username is
/// refused by `insert_user`.
pub proof fn law_username_taken_after_insert(m: DbModel, u: UserView, v: UserView)
    requires
        m.wf(),
        !m.has_user(u.username),
        v.username == u.username,
    ensures
        m.with_user(u).wf(),
        m.with_user(u).has_user(v.username),
{
    let n = m.with_user(u);
    assert(n.users[m.users.len() as int] == u);
}

/// A course key is taken once: a course whose `course_id` is free is
/// admitted, the store stays well formed, and from then on every course with
/// that key is refused by `insert_course`.
pub proof fn law_course_id_taken_after_insert(m: DbModel, c: CourseView, d: CourseView)
    requires
        m.wf(),
        !m.has_course(c.course_id),
        d.course_id == c.course_id,
    ensures
        m.with_course(c).wf(),
        m.with_course(c).has_course(d.course_id),
{
    let n = m.with_course(c);
    assert(n.courses[m.courses.len() as int] == c);
}

proof fn lemma_attended_includes(cs: Seq<CourseView>, s: Seq<char>, k: int)
    requires
        0 <= k < cs.len(),
        cs[k].enrolled_ids.contains(s),
    ensures
        attended_by(cs, s).contains(cs[k]),
    decreases cs.len(),
{
    let last = cs.len() - 1;
    if k == last {
        assert(attended_by(cs, s).last() == cs[k]);
    } else {
        lemma_attended_includes(cs.drop_last(), s, k);
        let sub = attended_by(cs.drop_last(), s);
        let j = choose|j: int| 0 <= j < sub.len() && sub[j] == cs[k];
        if cs.last().enrolled_ids.contains(s) {
            assert(attended_by(cs, s)[j] == cs[k]);
        }
    }
}

proof fn lemma_attended_members(cs: Seq<CourseView>, s: Seq<char>, j: int)
    requires
        0 <= j < attended_by(cs, s).len(),
    ensures
        cs.contains(attended_by(cs, s)[j]),
        attended_by(cs, s)[j].enrolled_ids.contains(s),
    decreases cs.len(),
{
    let sub = attended_by(cs.drop_last(), s);
    if cs.last().enrolled_ids.contains(s) && j == sub.len() {
        assert(cs[cs.len() - 1] == cs.last());
    } else {
        lemma_attended_members(cs.drop_last(), s, j);
        let k = choose|k: int| 0 <= k < cs.drop_last().len() && cs.drop_last()[k] == sub[j];
        assert(cs[k] == sub[j]);
    }
}

proof fn lemma_without_excludes(ids: Seq<Seq<char>>, s: Seq<char>)
    ensures
        !without(ids, s).contains(s),
    decreases ids.len(),
{
    if ids.len() > 0 {
        lemma_without_excludes(ids.drop_last(), s);
        if ids.last() != s {
            let w = without(ids.drop_last(), s);
            assert forall|j: int| 0 <= j < w.push(ids.last()).len() implies w.push(ids.last())[j] != s by {
                if j < w.len() {
                    assert(w[j] == w.push(ids.last())[j]);
                }
            }
        }
    }
}

/// After enrolling student `s` in an existing course `c`, the courses of `s`
/// include one keyed `c`.
pub proof fn law_enroll_then_listed(m: DbModel, c: Seq<char>, s: Seq<char>)
    requires
        m.has_course(c),
    ensures
        exists|k: int|
            0 <= k < attended_by(m.enrolled(c, s).courses, s).len() && (#[trigger] attended_by(
                m.enrolled(c, s).courses,
                s,
            )[k]).course_id == c,
{
    let i = choose|i: int| 0 <= i < m.courses.len() && m.courses[i].course_id == c;
    let cs = m.enrolled(c, s).courses;
    assert(cs[i] == course_enrolled(m.courses[i], c, s));
    assert(cs[i].enrolled_ids.last() == s);
    assert(cs[i].enrolled_ids.contains(s));
    lemma_attended_includes(cs, s, i);
    let r = attended_by(cs, s);
    let j = choose|j: int| 0 <= j < r.len() && r[j] == cs[i];
    assert(r[j].course_id == c);
}

/// After enrolling student `s` in course `c` and withdrawing it again, no
/// course keyed `c` is among the courses of `s`.
pub proof fn law_enroll_withdraw_then_unlisted(m: DbModel, c: Seq<char>, s: Seq<char>)
    ensures
        forall|k: int|
            0 <= k < attended_by(m.enrolled(c, s).withdrawn(c, s).courses, s).len() ==> (#[trigger] attended_by(
                m.enrolled(c, s).withdrawn(c, s).courses,
                s,
            )[k]).course_id != c,
{
    let cs = m.enrolled(c, s).withdrawn(c, s).courses;
    assert forall|k: int| 0 <= k < attended_by(cs, s).len() implies (#[trigger] attended_by(cs, s)[k]).course_id
        != c by {
        lemma_attended_members(cs, s, k);
        let x = attended_by(cs, s)[k];
        let i = choose|i: int| 0 <= i < cs.len() && cs[i] == x;
        let before = m.enrolled(c, s).courses[i];
        assert(cs[i] == course_withdrawn(before, c, s));
        if x.course_id == c {
            lemma_without_excludes(before.enrolled_ids, s);
        }
    }
}

/// Enrolling the same student twice keeps both entries: the course's list is
/// the old one followed by the student twice, every other course is left as
/// it was, and the store stays well formed.
pub proof fn law_enroll_twice_appends_twice(m: DbModel, c: Seq<char>, s: Seq<char>)
    requires
        m.wf(),
    ensures
        m.enrolled(c, s).enrolled(c, s).wf(),
        m.enrolled(c, s).enrolled(c, s).courses.len() == m.courses.len(),
        forall|k: int|
            0 <= k < m.courses.len() ==> (#[trigger] m.enrolled(c, s).enrolled(c, s).courses[k]) == if m.courses[k].course_id
                == c {
                CourseView { enrolled_ids: m.courses[k].enrolled_ids.push(s).push(s), ..m.courses[k] }
            } else {
                m.courses[k]
            },
{
    let n = m.enrolled(c, s).enrolled(c, s);
    assert forall|k: int| 0 <= k < m.courses.len() implies (#[trigger] n.courses[k]).course_id
        == m.courses[k].course_id by {
        assert(m.enrolled(c, s).courses[k] == course_enrolled(m.courses[k], c, s));
    }
    assert forall|k: int| 0 <= k < m.courses.len() implies #[trigger] n.courses[k] == if m.courses[k].course_id == c {
        CourseView { enrolled_ids: m.courses[k].enrolled_ids.push(s).push(s), ..m.courses[k] }
    } else {
        m.courses[k]
    } by {
        assert(m.enrolled(c, s).courses[k] == course_enrolled(m.courses[k], c, s));
    }
}

proof fn lemma_slot_bounds(sorted: Seq<LectureView>, t: int)
    ensures
        0 <= slot(sorted, t) <= sorted.len(),
        forall|j: int| 0 <= j < slot(sorted, t) ==> sorted[j].created_at > t,
        slot(sorted, t) < sorted.len() ==> sorted[slot(sorted, t)].created_at <= t,
    decreases sorted.len(),
{
    if sorted.len() > 0 && sorted[0].created_at > t {
        let rest = sorted.subrange(1, sorted.len() as int);
        lemma_slot_bounds(rest, t);
        assert forall|j: int| 0 <= j < slot(sorted, t) implies sorted[j].created_at > t by {
            if j > 0 {
                assert(sorted[j] == rest[j - 1]);
            }
        }
    }
}

/// The lectures a student sees come most recent first.
pub proof fn law_visible_lectures_newest_first(ls: Seq<LectureView>, cs: Seq<CourseView>, s: Seq<char>)
    ensures
        newest_first(visible_to(ls, cs, s)),
    decreases ls.len(),
{
    if ls.len() > 0 {
        law_visible_lectures_newest_first(ls.drop_last(), cs, s);
        let rest = visible_to(ls.drop_last(), cs, s);
        let l = ls.last();
        let p = slot(rest, l.created_at);
        lemma_slot_bounds(rest, l.created_at);
        let r = rest.insert(p, l);
        assert forall|i: int, j: int| 0 <= i < j < r.len() implies r[i].created_at >= r[j].created_at by {
            if j < p {
            } else if j == p {
                assert(r[i] == rest[i]);
            } else if i == p {
                assert(r[j] == rest[j - 1]);
                assert(rest[p].created_at <= l.created_at);
                if j - 1 > p {
                    assert(rest[p].created_at >= rest[j - 1].created_at);
                }
            } else if i < p {
                assert(r[j] == rest[j - 1]);
            } else {
                assert(r[i] == rest[i - 1]);
                assert(r[j] == rest[j - 1]);
            }
        }
    }
}

/// The lectures a student sees are exactly the lectures of the courses the
/// student is enrolled in, each as often as it is stored: only their order differs.
pub proof fn law_visible_lectures_are_enrolled_lectures(ls: Seq<LectureView>, cs: Seq<CourseView>, s: Seq<char>)
    ensures
        visible_to(ls, cs, s).to_multiset() == enrolled_lectures(ls, cs, s).to_multiset(),
    decreases ls.len(),
{
    if ls.len() > 0 {
        law_visible_lectures_are_enrolled_lectures(ls.drop_last(), cs, s);
        let rest = visible_to(ls.drop_last(), cs, s);
        let l = ls.last();
        if is_enrolled(cs, l.course_id, s) {
            lemma_slot_bounds(rest, l.created_at);
            to_multiset_insert(rest, slot(rest, l.created_at), l);
            to_multiset_build(enrolled_lectures(ls.drop_last(), cs, s), l);
        }
    }
}

} // verus!
