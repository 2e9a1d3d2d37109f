//! Projects, which group tasks.
use vstd::prelude::*;
use crate::cli::{lines_view};
use vstd::string::StringExecFns;
use crate::text::{decimal_int, i64_digits, pad_right, pad_right_seq};

verus! {

/// A project as stored.
#[derive(Debug, Clone)]
pub struct Project {
    pub id: i64,
    pub name: String,
}

/// One line of `todo project list`: the id in a column of 3, a space, the name.
pub open spec fn project_line_text(p: Project) -> Seq<char> {
    pad_right_seq(decimal_int(p.id as int), 3) + seq![' '] + p.name@
}

/// What `todo project list` prints: a header, a rule, one line per project.
pub open spec fn project_list_text(projects: Seq<Project>) -> Seq<Seq<char>> {
    seq!["ID  Name"@, "--  ----"@] + projects.map_values(|p: Project| project_line_text(p))
}

pub fn project_list_lines(projects: &Vec<Project>) -> (r: Vec<String>)
    ensures
        lines_view(r@) == project_list_text(projects@),
{
    let mut r: Vec<String> = Vec::new();
    r.push("ID  Name".to_owned());
    r.push("--  ----".to_owned());
    let mut i: usize = 0;
    while i < projects.len()
        invariant
            i <= projects.len(),
            lines_view(r@) == seq!["ID  Name"@, "--  ----"@] + projects@.take(i as int).map_values(
                |p: Project| project_line_text(p),
            ),
        decreases projects.len() - i,
    {
        let mut line: Vec<char> = pad_right(&i64_digits(projects[i].id), 3);
        line.push(' ');
        let mut s = crate::text::string_from_chars(&line);
        s.append(projects[i].name.as_str());
        assert(s@ =~= project_line_text(projects@[i as int]));
        let ghost before = lines_view(r@);
        r.push(s);
        proof {
            assert(lines_view(r@) =~= before.push(project_line_text(projects@[i as int])));
            assert(projects@.take(i + 1).map_values(|p: Project| project_line_text(p))
                =~= projects@.take(i as int).map_values(|p: Project| project_line_text(p)).push(
                project_line_text(projects@[i as int])));
        }
        i = i + 1;
    }
    assert(projects@.take(projects.len() as int) =~= projects@);
    r
}

} // verus!
