//! Checks on a configuration before resources are generated from it.

use vstd::prelude::*;
use crate::consts::BACKEND_NAME;
use crate::consts::FRONTEND_NAME;
use crate::model::ClusterConfig;
use crate::model::ManifestView;
use crate::naming::collide;
use crate::naming::collision_free;
use crate::naming::derive_name;
use crate::naming::derived_name;
use crate::naming::find_collision;
use crate::naming::first_collision;
use crate::naming::lemma_first_collision_unique;

verus! {

/// Why no resources can be generated from a configuration.
#[derive(Clone, Debug, PartialEq, Eq)]
pub enum ConfigError {
    /// The image of the named application has an empty tag.
    EmptyImageTag { application: String },
    /// The domains `first` and `second` differ, yet both derive the
    /// resource name `name`.
    NameCollision { first: String, second: String, name: String },
}

pub enum ConfigErrorView {
    EmptyImageTag { application: Seq<char> },
    NameCollision { first: Seq<char>, second: Seq<char>, name: Seq<char> },
}

impl View for ConfigError {
    type V = ConfigErrorView;

    open spec fn view(&self) -> ConfigErrorView {
        match *self {
            ConfigError::EmptyImageTag { application } => ConfigErrorView::EmptyImageTag {
                application: application@,
            },
            ConfigError::NameCollision { first, second, name } => ConfigErrorView::NameCollision {
                first: first@,
                second: second@,
                name: name@,
            },
        }
    }
}

impl ConfigErrorView {
    /// The error in words.
    pub open spec fn message(self) -> Seq<char> {
        match self {
            ConfigErrorView::EmptyImageTag { application } => "the image of "@ + application
                + " has an empty tag"@,
            ConfigErrorView::NameCollision { first, second, name } => "the domains "@ + first
                + " and "@ + second + " both derive the resource name "@ + name,
        }
    }
}

impl ConfigError {
    /// The error in words, naming the application or both domains.
    pub fn message(&self) -> (text: String)
        ensures
            text@ == self@.message(),
    {
        match self {
            ConfigError::EmptyImageTag { application } => {
                let mut text = String::from_str("the image of ");
                text.append(application.as_str());
                text.append(" has an empty tag");
                text
            },
            ConfigError::NameCollision { first, second, name } => {
                let mut text = String::from_str("the domains ");
                text.append(first.as_str());
                text.append(" and ");
                text.append(second.as_str());
                text.append(" both derive the resource name ");
                text.append(name.as_str());
                text
            },
        }
    }
}

/// A manifest from which resources can be generated: both images have a
/// tag, and no two different domains derive the same resource name.
pub open spec fn valid(manifest: ManifestView) -> bool {
    &&& manifest.apps.frontend.image.reference.tag.len() > 0
    &&& manifest.apps.backend.image.reference.tag.len() > 0
    &&& collision_free(manifest.infrastructure.ingress.domains)
}

/// `error` is what is reported of an invalid manifest: the frontend's
/// empty tag before the backend's, and either before the collision of
/// domains that is met first.
pub open spec fn reported(manifest: ManifestView, error: ConfigErrorView) -> bool {
    let domains = manifest.infrastructure.ingress.domains;
    if manifest.apps.frontend.image.reference.tag.len() == 0 {
        error == (ConfigErrorView::EmptyImageTag { application: FRONTEND_NAME@ })
    } else if manifest.apps.backend.image.reference.tag.len() == 0 {
        error == (ConfigErrorView::EmptyImageTag { application: BACKEND_NAME@ })
    } else {
        exists|i: int, j: int|
            #![trigger domains[i], domains[j]]
            first_collision(domains, i, j) && error == (ConfigErrorView::NameCollision {
                first: domains[i],
                second: domains[j],
                name: derived_name(domains[i]),
            })
    }
}

/// In a valid manifest different domains derive different resource names,
/// so no virtual server stands for two domains.
pub proof fn lemma_valid_names_are_unique(manifest: ManifestView, i: int, j: int)
    requires
        valid(manifest),
        0 <= i < manifest.infrastructure.ingress.domains.len(),
        0 <= j < manifest.infrastructure.ingress.domains.len(),
        manifest.infrastructure.ingress.domains[i] != manifest.infrastructure.ingress.domains[j],
    ensures
        derived_name(manifest.infrastructure.ingress.domains[i]) != derived_name(
            manifest.infrastructure.ingress.domains[j],
        ),
{
    let domains = manifest.infrastructure.ingress.domains;
    if i < j {
        assert(!collide(domains[i], domains[j]));
    } else if j < i {
        assert(!collide(domains[j], domains[i]));
    }
}

/// An invalid manifest is reported in one way only.
pub proof fn lemma_reported_error_unique(
    manifest: ManifestView,
    first: ConfigErrorView,
    second: ConfigErrorView,
)
    requires
        reported(manifest, first),
        reported(manifest, second),
    ensures
        first == second,
{
    let domains = manifest.infrastructure.ingress.domains;
    if manifest.apps.frontend.image.reference.tag.len() > 0
        && manifest.apps.backend.image.reference.tag.len() > 0 {
        let (i, j) = choose|i: int, j: int|
            #![trigger domains[i], domains[j]]
            first_collision(domains, i, j) && first == (ConfigErrorView::NameCollision {
                first: domains[i],
                second: domains[j],
                name: derived_name(domains[i]),
            });
        let (k, l) = choose|k: int, l: int|
            #![trigger domains[k], domains[l]]
            first_collision(domains, k, l) && second == (ConfigErrorView::NameCollision {
                first: domains[k],
                second: domains[l],
                name: derived_name(domains[k]),
            });
        lemma_first_collision_unique(domains, i, j, k, l);
    }
}

impl ClusterConfig {
    /// Checks that resources can be generated from the configuration, and
    /// says what stands in the way where they cannot.
    pub fn validate(&self) -> (outcome: Result<(), ConfigError>)
        ensures
            match outcome {
                Ok(_) => valid(self@.manifest),
                Err(error) => !valid(self@.manifest) && reported(self@.manifest, error@),
            },
    {
        if self.manifest.apps.frontend.image.reference.tag.as_str().is_empty() {
            return Err(ConfigError::EmptyImageTag { application: String::from_str(FRONTEND_NAME) });
        }
        if self.manifest.apps.backend.image.reference.tag.as_str().is_empty() {
            return Err(ConfigError::EmptyImageTag { application: String::from_str(BACKEND_NAME) });
        }
        let domains = &self.manifest.infrastructure.ingress.domains;
        match find_collision(domains) {
            None => Ok(()),
            Some((i, j)) => {
                let ghost all = domains.deep_view();
                assert(all[i as int] == domains[i as int]@ && all[j as int] == domains[j as int]@);
                Err(
                    ConfigError::NameCollision {
                        first: domains[i].clone(),
                        second: domains[j].clone(),
                        name: derive_name(domains[i].as_str()),
                    },
                )
            },
        }
    }
}

} // verus!
