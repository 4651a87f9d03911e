//! The files of a generation run: one for each stage, holding all of the
//! stage's resources.

use vstd::prelude::*;
use crate::config::all_configs;
use crate::config::all_deployments;
use crate::config::all_stages;
use crate::config::base_manifest;
use crate::config::deployments;
use crate::config::stage_config;
use crate::document::texts;
use crate::model::lemma_stage_identifier_injective;
use crate::model::Stage;
use crate::naming::lemma_different_lengths_never_collide;
use crate::package::Deployment;
use crate::package::DeploymentView;
use crate::text::join;
use crate::text::join_strings;
use crate::validation::reported;
use crate::validation::valid;
use crate::validation::ConfigError;

verus! {

/// The directory under which all stages are written.
pub const OUTPUT_ROOT: &'static str = "clusters";

/// The name of the file that holds a stage's resources.
pub const OUTPUT_FILE: &'static str = "resources.yaml";

/// What stands between two resources of a file.
pub const DOCUMENT_SEPARATOR: &'static str = "\n---\n";

/// A file to write: the components of its path below the working
/// directory, and what it holds.
#[derive(Clone, Debug, PartialEq, Eq)]
pub struct StageFile {
    pub path: Vec<String>,
    pub contents: String,
}

pub struct StageFileView {
    pub path: Seq<Seq<char>>,
    pub contents: Seq<char>,
}

impl View for StageFile {
    type V = StageFileView;

    open spec fn view(&self) -> StageFileView {
        StageFileView { path: self.path.deep_view(), contents: self.contents@ }
    }
}

impl DeepView for StageFile {
    type V = StageFileView;

    open spec fn deep_view(&self) -> StageFileView {
        self@
    }
}

/// Where the resources of a stage are written: a directory named by the
/// stage's identifier, and in it one file.
pub open spec fn stage_path(stage: Stage) -> Seq<Seq<char>> {
    seq![OUTPUT_ROOT@, stage.identifier(), OUTPUT_FILE@]
}

/// A file's contents: the resources with a separator line between
/// neighbours, and a line end after the last.
pub open spec fn file_contents(rendered: Seq<Seq<char>>) -> Seq<char> {
    join(rendered, DOCUMENT_SEPARATOR@) + "\n"@
}

/// The file of a deployment.
pub open spec fn stage_file_of(deployment: DeploymentView) -> StageFileView {
    StageFileView {
        path: stage_path(deployment.config.stage),
        contents: file_contents(texts(deployment.documents())),
    }
}

/// The path of a stage's file, component by component.
pub fn path_of(stage: Stage) -> (path: Vec<String>)
    ensures
        path.deep_view() == stage_path(stage),
{
    let mut path: Vec<String> = Vec::new();
    path.push(String::from_str(OUTPUT_ROOT));
    path.push(stage.to_string());
    path.push(String::from_str(OUTPUT_FILE));
    assert(path.deep_view() =~= stage_path(stage));
    path
}

/// Generates the file of one deployment, unless its configuration is
/// invalid: then nothing is generated and the error says why.
pub fn stage_file(deployment: &Deployment) -> (outcome: Result<StageFile, ConfigError>)
    ensures
        match outcome {
            Ok(file) => valid(deployment@.config.manifest) && file@ == stage_file_of(deployment@),
            Err(error) => !valid(deployment@.config.manifest) && reported(
                deployment@.config.manifest,
                error@,
            ),
        },
{
    match deployment.config.validate() {
        Err(error) => Err(error),
        Ok(_) => {
            let rendered = deployment.resources();
            let mut contents = join_strings(&rendered, DOCUMENT_SEPARATOR);
            contents.append("\n");
            Ok(StageFile { path: path_of(deployment.config.stage), contents })
        },
    }
}

/// Generation depends on nothing but the values of the configuration and
/// the list of packages: deployments that hold the same give the same
/// resources and the same file, character by character.
pub proof fn lemma_generation_is_deterministic(first: Deployment, second: Deployment)
    requires
        first@ == second@,
    ensures
        texts(first@.documents()) == texts(second@.documents()),
        stage_file_of(first@) == stage_file_of(second@),
{
}

/// Different stages are written to different places.
pub proof fn lemma_stage_paths_differ(first: Stage, second: Stage)
    requires
        first != second,
    ensures
        stage_path(first) != stage_path(second),
{
    if stage_path(first) == stage_path(second) {
        assert(stage_path(first)[1] == stage_path(second)[1]);
        lemma_stage_identifier_injective(first, second);
    }
}

/// The files of all stages, in the order of the stages.
pub open spec fn stage_files() -> Seq<StageFileView> {
    all_deployments().map_values(|deployment: DeploymentView| stage_file_of(deployment))
}

/// The configuration of every stage over the base manifest is valid: its
/// images have tags, and its domains derive different resource names.
pub proof fn lemma_stage_configs_valid(stage: Stage)
    ensures
        valid(stage_config(stage, base_manifest()).manifest),
{
    reveal_strlit("prod-latest");
    reveal_strlit("dev-latest");
    reveal_strlit("test-latest");
    reveal_strlit("local-latest");
    reveal_strlit("minimal-latest");
    reveal_strlit("prod.app.example.com");
    reveal_strlit("app.example.com");
    assert("prod.app.example.com"@.len() == 20 && "app.example.com"@.len() == 15);
    lemma_different_lengths_never_collide("prod.app.example.com"@, "app.example.com"@);
}

/// Generates the files of all stages in memory. Every stage is valid, so
/// this never fails; whoever writes the files has all of them before the
/// first is written.
pub fn build() -> (outcome: Result<Vec<StageFile>, ConfigError>)
    ensures
        match outcome {
            Ok(files) => files.deep_view() == stage_files(),
            Err(_) => false,
        },
{
    let all = deployments();
    let mut files: Vec<StageFile> = Vec::new();
    let mut i: usize = 0;
    while i < all.len()
        invariant
            i <= all.len(),
            files.len() == i,
            all.deep_view() == all_deployments(),
            forall|k: int| 0 <= k < i ==> files[k]@ == stage_file_of(all_deployments()[k]),
        decreases all.len() - i,
    {
        proof {
            assert(all_configs().len() == all_stages().len());
            assert(all_deployments().len() == all_configs().len());
            assert(all.deep_view().len() == all.len());
            assert(all.deep_view()[i as int] == all[i as int]@);
            assert(all[i as int]@.config == all_configs()[i as int]);
            assert(all_configs()[i as int] == stage_config(all_stages()[i as int], base_manifest()));
            lemma_stage_configs_valid(all_stages()[i as int]);
        }
        match stage_file(&all[i]) {
            Ok(file) => {
                files.push(file);
            },
            Err(error) => {
                return Err(error);
            },
        }
        i += 1;
    }
    assert(files.deep_view() =~= stage_files());
    Ok(files)
}

} // verus!
