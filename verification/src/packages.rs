//! Installed packages, counted by package manager.

use vstd::prelude::*;
use crate::decimal::{decimal, decimal_string};
use crate::text::texts;

verus! {

/// A package manager: the one that this program itself is built and
/// installed with, or another one, known by its label.
#[derive(Clone, Debug, PartialEq, Eq)]
pub enum Manager {
    Cargo,
    Other(String),
}

/// How many packages a package manager has installed.
#[derive(Clone, Debug, PartialEq, Eq)]
pub struct PackageCount {
    pub manager: Manager,
    pub count: usize,
}

/// The line of one package manager: the count, then the label in round
/// brackets.
pub open spec fn package_line(count: nat, label: Seq<char>) -> Seq<char> {
    decimal(count) + seq![' ', '('] + label + seq![')']
}

/// The lines of a list of counts: one line for each entry, in the order of
/// the entries, with the entries of `Manager::Cargo` left out.
pub open spec fn package_lines(counts: Seq<PackageCount>) -> Seq<Seq<char>>
    decreases counts.len(),
{
    if counts.len() == 0 {
        Seq::empty()
    } else {
        let before = package_lines(counts.drop_last());
        match counts.last().manager {
            Manager::Cargo => before,
            Manager::Other(label) => before.push(package_line(counts.last().count as nat, label@)),
        }
    }
}

/// Renders one line.
pub fn format_package_line(count: usize, label: &str) -> (line: String)
    ensures
        line@ == package_line(count as nat, label@),
{
    let mut line = decimal_string(count as u128);
    line.append(" (");
    line.append(label);
    line.append(")");
    proof {
        reveal_strlit(" (");
        reveal_strlit(")");
        assert(" ("@ =~= seq![' ', '(']);
        assert(")"@ =~= seq![')']);
        assert(line@ =~= package_line(count as nat, label@));
    }
    line
}

/// Renders the lines of a list of counts.
pub fn format_packages(counts: &Vec<PackageCount>) -> (lines: Vec<String>)
    ensures
        texts(lines@) == package_lines(counts@),
{
    let mut lines: Vec<String> = Vec::new();
    let mut i: usize = 0;
    assert(counts@.take(0) =~= Seq::<PackageCount>::empty());
    assert(texts(lines@) =~= package_lines(counts@.take(0)));
    while i < counts.len()
        invariant
            i <= counts.len(),
            texts(lines@) == package_lines(counts@.take(i as int)),
        decreases counts.len() - i,
    {
        let ghost before = texts(lines@);
        proof {
            let next = counts@.take(i + 1);
            assert(next.drop_last() =~= counts@.take(i as int));
            assert(next.last() == counts@[i as int]);
        }
        match &counts[i].manager {
            Manager::Cargo => {},
            Manager::Other(label) => {
                let line = format_package_line(counts[i].count, label.as_str());
                lines.push(line);
                assert(texts(lines@) =~= before.push(line@));
            },
        }
        i += 1;
    }
    assert(counts@.take(i as int) =~= counts@);
    lines
}

/// Whether an entry gets a line: every entry but those of `Manager::Cargo`.
pub open spec fn is_listed(entry: PackageCount) -> bool {
    entry.manager != Manager::Cargo
}

/// There are exactly as many lines as there are entries of managers other
/// than `Manager::Cargo`: never more than the entries, and as many where no
/// entry is of `Manager::Cargo`.
pub proof fn lemma_package_lines_len(counts: Seq<PackageCount>)
    ensures
        package_lines(counts).len() == counts.filter(|entry: PackageCount| is_listed(entry)).len(),
        package_lines(counts).len() <= counts.len(),
        (forall|i: int| 0 <= i < counts.len() ==> is_listed(counts[i])) ==> package_lines(
            counts,
        ).len() == counts.len(),
    decreases counts.len(),
{
    let listed = |entry: PackageCount| is_listed(entry);
    reveal(Seq::filter);
    if counts.len() > 0 {
        lemma_package_lines_len(counts.drop_last());
        assert(listed(counts.last()) == is_listed(counts.last()));
        if forall|i: int| 0 <= i < counts.len() ==> is_listed(counts[i]) {
            assert(forall|i: int|
                0 <= i < counts.drop_last().len() ==> counts.drop_last()[i] == counts[i]);
            assert(counts.last() == counts[counts.len() - 1]);
        }
    }
}

} // verus!
