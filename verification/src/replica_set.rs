//! The ReplicaSet workload resource: the manifest fields policy
//! generation reads, the policy annotation it writes back, and the
//! assembly of the policy document over the resource's containers.

#![allow(non_snake_case)]

use crate::policy::{
    base64_of, build_container_policy, compose_policy_document, encode_policy,
    is_built_container_policy, spec_policy_text, ContainerPolicy, Mount, PodContainer, PolicyData,
    Storage,
};
use crate::registry::Container;
use crate::text::str_eq;
use vstd::prelude::*;
use vstd::string::StringExecFns;

verus! {

/// A failure while reading or patching the manifest.
#[derive(Clone, Copy, PartialEq, Eq, Structural, Debug)]
pub enum ManifestError {
    MissingName,
    MissingNamespace,
    NoContainers,
}

/// Object metadata of a workload resource: name, namespace and
/// annotations.
pub struct ObjectMeta {
    pub name: Option<String>,
    pub namespace: Option<String>,
    pub annotations: Vec<(String, String)>,
}

/// The annotation key under which the policy document is embedded.
pub open spec fn spec_policy_annotation_key() -> Seq<char> {
    "io.katacontainers.config.agent.policy"@
}

/// Index of the first annotation with the given key; the length when
/// there is none.
pub open spec fn first_key_index(annos: Seq<(String, String)>, key: Seq<char>, from: int) -> int
    decreases annos.len() - from,
{
    if from < 0 || from >= annos.len() {
        annos.len() as int
    } else if annos[from].0@ == key {
        from
    } else {
        first_key_index(annos, key, from + 1)
    }
}

/// `first_key_index` stays in bounds, passes only over other keys, and
/// lands on the key when it is present.
pub proof fn lemma_first_key_index_bounds(annos: Seq<(String, String)>, key: Seq<char>, i: int)
    requires
        0 <= i <= annos.len(),
    ensures
        i <= first_key_index(annos, key, i) <= annos.len(),
        forall|j: int|
            i <= j < first_key_index(annos, key, i) ==> (#[trigger] annos[j]).0@ != key,
        first_key_index(annos, key, i) < annos.len() ==> annos[first_key_index(
            annos,
            key,
            i,
        )].0@ == key,
    decreases annos.len() - i,
{
    if i < annos.len() && annos[i].0@ != key {
        lemma_first_key_index_bounds(annos, key, i + 1);
    }
}

/// When everything before `k` carries another key and `k` carries the
/// key, the first occurrence is `k`.
pub proof fn lemma_first_key_index_is(
    annos: Seq<(String, String)>,
    key: Seq<char>,
    i: int,
    k: int,
)
    requires
        0 <= i <= k < annos.len(),
        annos[k].0@ == key,
        forall|j: int| i <= j < k ==> (#[trigger] annos[j]).0@ != key,
    ensures
        first_key_index(annos, key, i) == k,
    decreases k - i,
{
    if i < k {
        lemma_first_key_index_is(annos, key, i + 1, k);
    }
}

/// The value of the first annotation with the given key.
pub open spec fn annotation_value(annos: Seq<(String, String)>, key: Seq<char>) -> Option<
    Seq<char>,
> {
    let k = first_key_index(annos, key, 0);
    if k < annos.len() {
        Some(annos[k].1@)
    } else {
        None
    }
}

impl ObjectMeta {
    /// The resource's name.
    pub fn get_name(&self) -> (r: Result<String, ManifestError>)
        ensures
            match r {
                Ok(n) => self.name matches Some(m) && n@ == m@,
                Err(e) => self.name is None && e == ManifestError::MissingName,
            },
    {
        match &self.name {
            Some(n) => Ok(n.clone()),
            None => Err(ManifestError::MissingName),
        }
    }

    /// The resource's namespace.
    pub fn get_namespace(&self) -> (r: Result<String, ManifestError>)
        ensures
            match r {
                Ok(n) => self.namespace matches Some(m) && n@ == m@,
                Err(e) => self.namespace is None && e == ManifestError::MissingNamespace,
            },
    {
        match &self.namespace {
            Some(n) => Ok(n.clone()),
            None => Err(ManifestError::MissingNamespace),
        }
    }

    /// Set the policy annotation: an existing entry under the policy key
    /// is replaced in place, otherwise the entry is appended.
    pub fn add_policy_annotation(&mut self, encoded_policy: &str)
        ensures
            ({
                let k = first_key_index(
                    old(self).annotations@,
                    spec_policy_annotation_key(),
                    0,
                );
                &&& (k < old(self).annotations@.len() ==> {
                    &&& final(self).annotations@.len() == old(self).annotations@.len()
                    &&& forall|j: int|
                        0 <= j < old(self).annotations@.len() && j != k ==> final(self).annotations@[j] == old(self).annotations@[j]
                    &&& final(self).annotations@[k].0@ == spec_policy_annotation_key()
                    &&& final(self).annotations@[k].1@ == encoded_policy@
                })
                &&& (k == old(self).annotations@.len() ==> {
                    &&& final(self).annotations@.len() == old(self).annotations@.len() + 1
                    &&& forall|j: int|
                        0 <= j < old(self).annotations@.len() ==> final(self).annotations@[j]
                            == old(self).annotations@[j]
                    &&& final(self).annotations@[k].0@ == spec_policy_annotation_key()
                    &&& final(self).annotations@[k].1@ == encoded_policy@
                })
            }),
            final(self).name == old(self).name,
            final(self).namespace == old(self).namespace,
    {
        let mut key = String::new();
        key.append("io.katacontainers.config.agent.policy");
        let mut value = String::new();
        value.append(encoded_policy);
        let n = self.annotations.len();
        let mut i: usize = 0;
        while i < n
            invariant
                i <= n,
                n == self.annotations@.len(),
                key@ == spec_policy_annotation_key(),
                value@ == encoded_policy@,
                *self == *old(self),
                first_key_index(self.annotations@, spec_policy_annotation_key(), 0)
                    == first_key_index(self.annotations@, spec_policy_annotation_key(), i as int),
            decreases n - i,
        {
            if str_eq(self.annotations[i].0.as_str(), "io.katacontainers.config.agent.policy") {
                let _ = self.annotations.remove(i);
                self.annotations.insert(i, (key, value));
                proof {
                    assert(forall|j: int|
                        0 <= j < old(self).annotations@.len() && j != i ==> final(self).annotations@[j] == old(self).annotations@[j]);
                }
                return ;
            }
            i += 1;
        }
        self.annotations.push((key, value));
    }
}

/// The label selector of the resource; matched labels only.
pub struct LabelSelector {
    pub match_labels: Vec<(String, String)>,
}

/// A volume of the pod template.
pub struct Volume {
    pub name: String,
}

/// The pod part of the template: its containers and volumes.
pub struct PodSpec {
    pub containers: Vec<PodContainer>,
    pub volumes: Option<Vec<Volume>>,
}

/// The pod template of the workload resource.
pub struct PodTemplateSpec {
    pub metadata: ObjectMeta,
    pub spec: PodSpec,
}

/// What the infrastructure collaborator yields for this workload's
/// volumes: the mounts and storages to add to each container.
pub struct InfraPolicy {
    pub volume_mounts: Vec<Mount>,
    pub volume_storages: Vec<Storage>,
}

/// A ReplicaSet workload resource.
pub struct ReplicaSet {
    pub apiVersion: String,
    pub kind: String,
    pub metadata: ObjectMeta,
    pub spec: ReplicaSetSpec,
    pub registry_containers: Vec<Container>,
}

/// The spec of a ReplicaSet.
pub struct ReplicaSetSpec {
    pub selector: LabelSelector,
    pub template: PodTemplateSpec,
    pub replicas: Option<i32>,
    pub minReadySeconds: Option<i32>,
}

impl ReplicaSet {
    /// A ReplicaSet always carries a policy.
    pub fn requires_policy(&self) -> (r: bool)
        ensures
            r,
    {
        true
    }

    /// The resource's metadata name.
    pub fn get_metadata_name(&self) -> (r: Result<String, ManifestError>)
        ensures
            match r {
                Ok(n) => self.metadata.name matches Some(m) && n@ == m@,
                Err(e) => self.metadata.name is None && e == ManifestError::MissingName,
            },
    {
        self.metadata.get_name()
    }

    /// The host-name pattern of the resource's pods: the metadata name
    /// followed by a five-character random suffix.
    pub fn get_host_name(&self) -> (r: Result<String, ManifestError>)
        ensures
            match r {
                Ok(h) => self.metadata.name matches Some(m) && h@ == "^"@ + m@ + "-[a-z0-9]{5}$"@,
                Err(e) => self.metadata.name is None && e == ManifestError::MissingName,
            },
    {
        let name = match self.get_metadata_name() {
            Ok(n) => n,
            Err(e) => {
                return Err(e);
            },
        };
        let mut out = String::new();
        out.append("^");
        out.append(name.as_str());
        out.append("-[a-z0-9]{5}$");
        Ok(out)
    }

    /// A ReplicaSet names no sandbox.
    pub fn get_sandbox_name(&self) -> (r: Result<Option<String>, ManifestError>)
        ensures
            r == Result::<Option<String>, ManifestError>::Ok(None),
    {
        Ok(None)
    }

    /// The resource's namespace.
    pub fn get_namespace(&self) -> (r: Result<String, ManifestError>)
        ensures
            match r {
                Ok(n) => self.metadata.namespace matches Some(m) && n@ == m@,
                Err(e) => self.metadata.namespace is None && e == ManifestError::MissingNamespace,
            },
    {
        self.metadata.get_namespace()
    }

    /// Add to the accumulators what the infrastructure collaborator
    /// yields for this workload's volumes; a template without volumes
    /// adds nothing.
    pub fn get_container_mounts_and_storages(
        &self,
        policy_mounts: &mut Vec<Mount>,
        storages: &mut Vec<Storage>,
        _container: &PodContainer,
        infra_policy: InfraPolicy,
    )
        ensures
            self.spec.template.spec.volumes is Some ==> final(policy_mounts)@ == old(policy_mounts)@ + infra_policy.volume_mounts@ && final(storages)@ == old(storages)@
                + infra_policy.volume_storages@,
            self.spec.template.spec.volumes is None ==> final(policy_mounts)@ == old(policy_mounts)@ && final(storages)@ == old(storages)@,
    {
        if self.spec.template.spec.volumes.is_some() {
            let mut mounts = infra_policy.volume_mounts;
            let mut stores = infra_policy.volume_storages;
            policy_mounts.append(&mut mounts);
            storages.append(&mut stores);
        }
    }

    /// Generate the policy document over the template's containers: the
    /// i-th container is merged with the i-th resolved image, the first
    /// container is the pause container, the document is embedded into
    /// the template metadata as a base64 annotation, and the pause
    /// container is removed from the serialized output.
    pub fn generate_policy(
        &mut self,
        rules: &str,
        mounts_per_container: Vec<Vec<Mount>>,
        storages_per_container: Vec<Vec<Storage>>,
    ) -> (r: Result<String, ManifestError>)
        requires
            old(self).spec.template.spec.containers@.len() >= 1,
            old(self).spec.template.spec.containers@.len()
                == old(self).registry_containers@.len(),
            mounts_per_container@.len() == old(self).spec.template.spec.containers@.len(),
            storages_per_container@.len() == old(self).spec.template.spec.containers@.len(),
            forall|i: int|
                0 <= i < old(self).registry_containers@.len() ==> (#[trigger] old(self).registry_containers@[i]).spec_config().gid_parses(),
        ensures
            r is Ok,
            exists|d: PolicyData|
                #![auto]
                {
                    &&& d.containers@.len() == old(self).spec.template.spec.containers@.len()
                    &&& (forall|i: int|
                        0 <= i < d.containers@.len() ==> is_built_container_policy(
                            #[trigger] d.containers@[i],
                            old(self).spec.template.spec.containers@[i],
                            old(self).registry_containers@[i],
                            i == 0,
                            mounts_per_container@[i],
                            storages_per_container@[i],
                        ))
                    &&& r->Ok_0@ == spec_policy_text(rules@, d)
                },
            final(self).spec.template.spec.containers@ == old(self).spec.template.spec.containers@.drop_first(),
            annotation_value(
                final(self).spec.template.metadata.annotations@,
                spec_policy_annotation_key(),
            ) == Some(base64_of(vstd::utf8::encode_utf8(r->Ok_0@))),
            final(self).registry_containers == old(self).registry_containers,
            final(self).metadata == old(self).metadata,
    {
        let n = self.spec.template.spec.containers.len();
        let mut remaining_mounts = mounts_per_container;
        let mut remaining_storages = storages_per_container;
        let mut policy_containers: Vec<ContainerPolicy> = Vec::new();
        for i in 0..n
            invariant
                n == self.spec.template.spec.containers@.len(),
                n == self.registry_containers@.len(),
                *self == *old(self),
                mounts_per_container@.len() == n,
                storages_per_container@.len() == n,
                remaining_mounts@ =~= mounts_per_container@.skip(i as int),
                remaining_storages@ =~= storages_per_container@.skip(i as int),
                policy_containers@.len() == i,
                forall|k: int|
                    0 <= k < old(self).registry_containers@.len() ==> (#[trigger] old(self).registry_containers@[k]).spec_config().gid_parses(),
                forall|j: int|
                    0 <= j < i ==> is_built_container_policy(
                        #[trigger] policy_containers@[j],
                        self.spec.template.spec.containers@[j],
                        self.registry_containers@[j],
                        j == 0,
                        mounts_per_container@[j],
                        storages_per_container@[j],
                    ),
        {
            let mounts = remaining_mounts.remove(0);
            let storages = remaining_storages.remove(0);
            let cp = build_container_policy(
                &self.spec.template.spec.containers[i],
                &self.registry_containers[i],
                i == 0,
                mounts,
                storages,
            );
            policy_containers.push(cp);
            proof {
                assert(mounts_per_container@.skip(i as int).drop_first()
                    =~= mounts_per_container@.skip(i + 1));
                assert(storages_per_container@.skip(i as int).drop_first()
                    =~= storages_per_container@.skip(i + 1));
            }
        }
        let data = PolicyData { containers: policy_containers };
        let policy = compose_policy_document(rules, &data);
        let encoded = encode_policy(policy.as_str());
        let ghost annos_before = self.spec.template.metadata.annotations@;
        self.spec.template.metadata.add_policy_annotation(encoded.as_str());
        proof {
            let key = spec_policy_annotation_key();
            let k = first_key_index(annos_before, key, 0);
            lemma_first_key_index_bounds(annos_before, key, 0);
            lemma_first_key_index_is(
                self.spec.template.metadata.annotations@,
                key,
                0,
                k,
            );
        }
        let _ = self.spec.template.spec.containers.remove(0);
        proof {
            assert(data.containers@.len() == old(self).spec.template.spec.containers@.len());
            assert(forall|i: int|
                0 <= i < data.containers@.len() ==> is_built_container_policy(
                    #[trigger] data.containers@[i],
                    old(self).spec.template.spec.containers@[i],
                    old(self).registry_containers@[i],
                    i == 0,
                    mounts_per_container@[i],
                    storages_per_container@[i],
                ));
            assert(final(self).spec.template.spec.containers@ =~= old(self).spec.template.spec.containers@.drop_first());
        }
        Ok(policy)
    }
}

} // verus!
