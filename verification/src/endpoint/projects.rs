//! Project endpoints: list, create, delete.

use vstd::prelude::*;
use crate::endpoint::{Endpoint, HTTPMethod};
use crate::project::ProjectTy;
use crate::text;

verus! {

pub const PREFIX: &'static str = "/projects";

pub struct CreateProjectBody {
    pub title: String,
    pub description: Option<String>,
}

/// A project record as the caller sees it.
pub struct ProjectInfo {
    pub id: i64,
    pub ty: ProjectTy,
    pub title: String,
    pub description: Option<String>,
    pub author_id: i64,
}

impl Clone for ProjectInfo {
    fn clone(&self) -> (r: Self)
        ensures
            r == *self,
    {
        ProjectInfo {
            id: self.id,
            ty: self.ty,
            title: self.title.clone(),
            description: match &self.description {
                Some(d) => Some(d.clone()),
                None => None,
            },
            author_id: self.author_id,
        }
    }
}

pub struct ProjectListQuery {
    pub limit: u32,
    pub skip: u32,
}

pub struct ProjectPath {
    pub id: i64,
}

pub struct ListProjects;

impl Endpoint for ListProjects {
    type Query = ProjectListQuery;

    type Body = ();

    type Response = Vec<ProjectInfo>;

    open spec fn spec_method() -> HTTPMethod {
        HTTPMethod::Get
    }

    open spec fn spec_partial_path() -> Seq<char> {
        "/"@
    }

    open spec fn spec_path(&self) -> Seq<char> {
        "/projects"@
    }

    fn method() -> (r: HTTPMethod) {
        HTTPMethod::Get
    }

    fn partial_path() -> (r: &'static str) {
        "/"
    }

    fn build_path(&self) -> (r: String) {
        PREFIX.to_owned()
    }
}

pub struct CreateProject;

impl Endpoint for CreateProject {
    type Query = ();

    type Body = CreateProjectBody;

    type Response = ProjectInfo;

    open spec fn spec_method() -> HTTPMethod {
        HTTPMethod::Put
    }

    open spec fn spec_partial_path() -> Seq<char> {
        "/"@
    }

    open spec fn spec_path(&self) -> Seq<char> {
        "/projects"@
    }

    fn method() -> (r: HTTPMethod) {
        HTTPMethod::Put
    }

    fn partial_path() -> (r: &'static str) {
        "/"
    }

    fn build_path(&self) -> (r: String) {
        PREFIX.to_owned()
    }
}

pub struct DeleteProject(pub ProjectPath);

impl Endpoint for DeleteProject {
    type Query = ();

    type Body = ();

    type Response = ();

    open spec fn spec_method() -> HTTPMethod {
        HTTPMethod::Delete
    }

    open spec fn spec_partial_path() -> Seq<char> {
        "/:id"@
    }

    open spec fn spec_path(&self) -> Seq<char> {
        "/projects"@ + "/"@ + text::spec_i64_string(self.0.id as int)
    }

    fn method() -> (r: HTTPMethod) {
        HTTPMethod::Delete
    }

    fn partial_path() -> (r: &'static str) {
        "/:id"
    }

    fn build_path(&self) -> (r: String) {
        let mut s = String::from_str(PREFIX);
        s.append("/");
        let digits = text::i64_string(self.0.id);
        s.append(digits.as_str());
        proof {
            assert(s@ =~= "/projects"@ + "/"@ + text::spec_i64_string(self.0.id as int));
        }
        s
    }
}

} // verus!
