//! Locating and reading the devcontainer descriptor of a repository.
use vstd::prelude::*;

use crate::error::{ErrorModel, SessionError};
use crate::json::{json_accepts, json_is_valid, json_object, json_object_at, json_str, json_str_at};
use crate::text::{occurs_at, occurs_in};

verus! {

/// The directory under the repository root `root` that holds descriptors.
pub open spec fn descriptor_dir(root: Seq<char>) -> Seq<char> {
    root + "/.devcontainer"@
}

/// The descriptor at the repository root.
pub open spec fn root_descriptor(root: Seq<char>) -> Seq<char> {
    root + "/.devcontainer.json"@
}

/// The descriptor used when no environment is named, and the one that is
/// scaffolded.
pub open spec fn default_descriptor(root: Seq<char>) -> Seq<char> {
    descriptor_dir(root) + "/devcontainer.json"@
}

/// The directory of a named environment.
pub open spec fn env_dir(root: Seq<char>, env: Seq<char>) -> Seq<char> {
    descriptor_dir(root) + "/"@ + env
}

/// The descriptor of a named environment.
pub open spec fn env_descriptor(root: Seq<char>, env: Seq<char>) -> Seq<char> {
    env_dir(root, env) + "/devcontainer.json"@
}

/// What a scaffolded descriptor holds.
pub open spec fn scaffold_text() -> Seq<char> {
    "{\n  \"image\": \"docker.io/library/ubuntu:latest\"\n}\n"@
}

/// The directory under `root` that holds descriptors.
pub fn descriptor_dir_path(root: &str) -> (r: String)
    ensures
        r@ == descriptor_dir(root@),
{
    String::from_str(root).concat("/.devcontainer")
}

/// The descriptor at the root `root`.
pub fn root_descriptor_path(root: &str) -> (r: String)
    ensures
        r@ == root_descriptor(root@),
{
    String::from_str(root).concat("/.devcontainer.json")
}

/// The default descriptor under `root`.
pub fn default_descriptor_path(root: &str) -> (r: String)
    ensures
        r@ == default_descriptor(root@),
{
    descriptor_dir_path(root).concat("/devcontainer.json")
}

fn env_dir_path(root: &str, env: &str) -> (r: String)
    ensures
        r@ == env_dir(root@, env@),
{
    descriptor_dir_path(root).concat("/").concat(env)
}

/// The descriptor of the environment `env` under `root`.
pub fn env_descriptor_path(root: &str, env: &str) -> (r: String)
    ensures
        r@ == env_descriptor(root@, env@),
{
    env_dir_path(root, env).concat("/devcontainer.json")
}

/// The contents of a scaffolded descriptor.
pub fn scaffold_contents() -> (r: String)
    ensures
        r@ == scaffold_text(),
{
    String::from_str("{\n  \"image\": \"docker.io/library/ubuntu:latest\"\n}\n")
}

/// Where the descriptor is, the directory its relative paths start from, and
/// whether it still has to be written.
#[derive(Debug, Clone, PartialEq, Eq)]
pub struct Resolution {
    pub path: String,
    pub dir: String,
    pub scaffold: bool,
}

pub ghost struct ResolutionModel {
    pub path: Seq<char>,
    pub dir: Seq<char>,
    pub scaffold: bool,
}

impl View for Resolution {
    type V = ResolutionModel;

    open spec fn view(&self) -> ResolutionModel {
        ResolutionModel { path: self.path@, dir: self.dir@, scaffold: self.scaffold }
    }
}

/// The resolution order under the repository root `root`. `Err(env)` says
/// that the named environment has no descriptor.
pub open spec fn located(
    root: Seq<char>,
    env: Option<Seq<char>>,
    env_exists: bool,
    root_exists: bool,
    default_exists: bool,
) -> Result<ResolutionModel, Seq<char>> {
    match env {
        Some(e) => if env_exists {
            Ok(
                ResolutionModel {
                    path: env_descriptor(root, e),
                    dir: env_dir(root, e),
                    scaffold: false,
                },
            )
        } else {
            Err(e)
        },
        None => if root_exists {
            Ok(ResolutionModel { path: root_descriptor(root), dir: root, scaffold: false })
        } else {
            Ok(
                ResolutionModel {
                    path: default_descriptor(root),
                    dir: descriptor_dir(root),
                    scaffold: !default_exists,
                },
            )
        },
    }
}

pub open spec fn opt_view(o: Option<&str>) -> Option<Seq<char>> {
    match o {
        Some(s) => Some(s@),
        None => None,
    }
}

/// Picks the descriptor under the repository root `root` from what exists:
/// the named environment's when one is named, else the root one, else the
/// default one, else a default one to be scaffolded.
pub fn find_devcontainer(
    root: &str,
    dev_env: Option<&str>,
    env_exists: bool,
    root_exists: bool,
    default_exists: bool,
) -> (r: Result<Resolution, SessionError>)
    ensures
        match located(root@, opt_view(dev_env), env_exists, root_exists, default_exists) {
            Ok(m) => r is Ok && r->Ok_0@ == m,
            Err(e) => r matches Err(SessionError::EnvironmentNotFound { env }) && env@ == e,
        },
{
    match dev_env {
        Some(e) => {
            if env_exists {
                Ok(
                    Resolution {
                        path: env_descriptor_path(root, e),
                        dir: env_dir_path(root, e),
                        scaffold: false,
                    },
                )
            } else {
                Err(SessionError::EnvironmentNotFound { env: String::from_str(e) })
            }
        },
        None => {
            if root_exists {
                Ok(
                    Resolution {
                        path: root_descriptor_path(root),
                        dir: String::from_str(root),
                        scaffold: false,
                    },
                )
            } else {
                Ok(
                    Resolution {
                        path: default_descriptor_path(root),
                        dir: descriptor_dir_path(root),
                        scaffold: !default_exists,
                    },
                )
            }
        },
    }
}

/// With no descriptor anywhere, resolution scaffolds the default one; once
/// that file exists, resolving again uses it and scaffolds nothing.
pub proof fn lemma_scaffold_once(root: Seq<char>)
    ensures
        located(root, None, false, false, false) == Ok::<ResolutionModel, Seq<char>>(
            ResolutionModel {
                path: default_descriptor(root),
                dir: descriptor_dir(root),
                scaffold: true,
            },
        ),
        located(root, None, false, false, true) == Ok::<ResolutionModel, Seq<char>>(
            ResolutionModel {
                path: default_descriptor(root),
                dir: descriptor_dir(root),
                scaffold: false,
            },
        ),
        occurs_in(scaffold_text(), "\"image\": \"docker.io/library/ubuntu:latest\""@),
{
    reveal_strlit("{\n  \"image\": \"docker.io/library/ubuntu:latest\"\n}\n");
    reveal_strlit("\"image\": \"docker.io/library/ubuntu:latest\"");
    let t = scaffold_text();
    let n = "\"image\": \"docker.io/library/ubuntu:latest\""@;
    assert(t.subrange(4, 4 + n.len() as int) =~= n);
    assert(occurs_at(t, n, 4));
}

/// A named environment without a descriptor fails resolution, whatever else
/// exists, and nothing is scaffolded.
pub proof fn lemma_missing_env_fails(
    root: Seq<char>,
    env: Seq<char>,
    root_exists: bool,
    default_exists: bool,
)
    ensures
        located(root, Some(env), false, root_exists, default_exists) == Err::<
            ResolutionModel,
            Seq<char>,
        >(env),
{
}

/// What a descriptor asks for.
#[derive(Debug, Clone, PartialEq, Eq)]
pub enum Descriptor {
    /// A ready image.
    Image { reference: String },
    /// An image built from a dockerfile; both paths are already resolved
    /// against the descriptor's directory.
    Build { dockerfile: String, context: String },
}

pub ghost enum DescriptorModel {
    Image { reference: Seq<char> },
    Build { dockerfile: Seq<char>, context: Seq<char> },
}

impl View for Descriptor {
    type V = DescriptorModel;

    open spec fn view(&self) -> DescriptorModel {
        match self {
            Descriptor::Image { reference } => DescriptorModel::Image { reference: reference@ },
            Descriptor::Build { dockerfile, context } => DescriptorModel::Build {
                dockerfile: dockerfile@,
                context: context@,
            },
        }
    }
}

/// Why descriptor fields do not make a descriptor.
pub ghost enum DescriptorFault {
    ImageMissing,
    DockerfileMissing,
}

/// `p` taken relative to `dir`; an absolute `p` stays as it is.
pub open spec fn relative_to(dir: Seq<char>, p: Seq<char>) -> Seq<char> {
    if p.len() > 0 && p[0] == '/' {
        p
    } else if dir.len() == 0 {
        p
    } else {
        dir + seq!['/'] + p
    }
}

/// The descriptor that its fields describe: an `image` string wins; else a
/// `build` object needs a `dockerfile` string and takes `context` as `.`
/// when it has none.
pub open spec fn descriptor_of(
    image: Option<Seq<char>>,
    build: bool,
    dockerfile: Option<Seq<char>>,
    context: Option<Seq<char>>,
    dir: Seq<char>,
) -> Result<DescriptorModel, DescriptorFault> {
    match image {
        Some(i) => Ok(DescriptorModel::Image { reference: i }),
        None => if !build {
            Err(DescriptorFault::ImageMissing)
        } else {
            match dockerfile {
                None => Err(DescriptorFault::DockerfileMissing),
                Some(d) => {
                    let c = match context {
                        Some(c) => c,
                        None => "."@,
                    };
                    Ok(
                        DescriptorModel::Build {
                            dockerfile: relative_to(dir, d),
                            context: relative_to(dir, c),
                        },
                    )
                },
            }
        },
    }
}

/// What a descriptor result says in terms of `descriptor_of`; `None` for
/// any other error.
pub open spec fn descriptor_outcome(r: &Result<Descriptor, SessionError>) -> Option<
    Result<DescriptorModel, DescriptorFault>,
> {
    match r {
        Ok(d) => Some(Ok(d@)),
        Err(SessionError::ImageMissing) => Some(Err(DescriptorFault::ImageMissing)),
        Err(SessionError::DockerfileMissing) => Some(Err(DescriptorFault::DockerfileMissing)),
        Err(_) => None,
    }
}

/// `p` relative to `dir`.
pub fn relative_path(dir: &str, p: &str) -> (r: String)
    ensures
        r@ == relative_to(dir@, p@),
{
    let absolute = p.unicode_len() > 0 && p.get_char(0) == '/';
    if absolute || dir.unicode_len() == 0 {
        String::from_str(p)
    } else {
        let r = String::from_str(dir).concat("/").concat(p);
        proof {
            reveal_strlit("/");
        }
        assert(r@ =~= dir@ + seq!['/'] + p@);
        r
    }
}

/// Builds the descriptor from the fields read out of the document.
pub fn descriptor_from_fields(
    image: Option<&str>,
    build: bool,
    dockerfile: Option<&str>,
    context: Option<&str>,
    dir: &str,
) -> (r: Result<Descriptor, SessionError>)
    ensures
        descriptor_outcome(&r) == Some(
            descriptor_of(opt_view(image), build, opt_view(dockerfile), opt_view(context), dir@),
        ),
{
    match image {
        Some(i) => Ok(Descriptor::Image { reference: String::from_str(i) }),
        None => {
            if !build {
                return Err(SessionError::ImageMissing);
            }
            match dockerfile {
                None => Err(SessionError::DockerfileMissing),
                Some(d) => {
                    let c = match context {
                        Some(c) => c,
                        None => ".",
                    };
                    Ok(
                        Descriptor::Build {
                            dockerfile: relative_path(dir, d),
                            context: relative_path(dir, c),
                        },
                    )
                },
            }
        },
    }
}

/// What the descriptor text `contents` describes, with relative paths
/// starting at `dir`: the fields are what serde_json finds under the
/// pointers `/image`, `/build`, `/build/dockerfile` and `/build/context`.
pub open spec fn parsed_descriptor(contents: Seq<char>, dir: Seq<char>) -> Result<
    DescriptorModel,
    DescriptorFault,
> {
    descriptor_of(
        json_str_at(contents, "/image"@),
        json_object_at(contents, "/build"@),
        json_str_at(contents, "/build/dockerfile"@),
        json_str_at(contents, "/build/context"@),
        dir,
    )
}

/// A build section that names only a dockerfile gives a build whose
/// dockerfile and context (`.`) are both taken relative to the descriptor's
/// directory.
pub proof fn lemma_build_defaults_context(contents: Seq<char>, dir: Seq<char>, dockerfile: Seq<char>)
    requires
        json_str_at(contents, "/image"@) is None,
        json_object_at(contents, "/build"@),
        json_str_at(contents, "/build/dockerfile"@) == Some(dockerfile),
        json_str_at(contents, "/build/context"@) is None,
    ensures
        parsed_descriptor(contents, dir) == Ok::<DescriptorModel, DescriptorFault>(
            DescriptorModel::Build {
                dockerfile: relative_to(dir, dockerfile),
                context: relative_to(dir, "."@),
            },
        ),
{
}

/// The result of parsing `contents`, read from `path`: an invalid-JSON
/// error exactly when serde_json refuses the text, else the descriptor the
/// text describes.
pub open spec fn parse_result(
    contents: Seq<char>,
    path: Seq<char>,
    dir: Seq<char>,
    r: Result<Descriptor, SessionError>,
) -> bool {
    if json_accepts(contents) {
        descriptor_outcome(&r) == Some(parsed_descriptor(contents, dir))
    } else {
        r is Err && r->Err_0@ == (ErrorModel::InvalidJson { path })
    }
}

fn optional(o: &Option<String>) -> (r: Option<&str>)
    ensures
        opt_view(r) == match o {
            Some(s) => Some(s@),
            None => None::<Seq<char>>,
        },
{
    match o {
        Some(s) => Some(s.as_str()),
        None => None,
    }
}

/// Parses descriptor text read from `path`, whose relative paths start at
/// `dir`.
pub fn parse_descriptor(contents: &str, path: &str, dir: &str) -> (r: Result<
    Descriptor,
    SessionError,
>)
    ensures
        parse_result(contents@, path@, dir@, r),
{
    if !json_is_valid(contents) {
        return Err(SessionError::InvalidJson { path: String::from_str(path) });
    }
    let image = json_str(contents, "/image");
    let build = json_object(contents, "/build");
    let dockerfile = json_str(contents, "/build/dockerfile");
    let context = json_str(contents, "/build/context");
    descriptor_from_fields(optional(&image), build, optional(&dockerfile), optional(&context), dir)
}

} // verus!
