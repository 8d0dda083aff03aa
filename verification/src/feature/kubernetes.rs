//! The feature gates that the controller manager knows by default.

use vstd::prelude::*;

verus! {

/// The default feature gates as `(name, enabled, read_only, pre_release)`.
pub open spec fn default_feature_table() -> Seq<(Seq<char>, bool, bool, bool)> {
    seq![
        ("AllAlpha"@, false, false, true),
        ("AllBeta"@, false, false, true),
        ("ServiceLBEndpointFinalizers"@, true, false, false),
        ("VolumeAttributesClass"@, false, false, true),
        ("SELinuxChangePolicy"@, false, false, true),
        ("SELinuxMountReadWriteOncePod"@, false, false, true),
        ("HPAContainerMetrics"@, false, false, true),
        ("DynamicResourceAllocation"@, false, false, true),
        ("DRAResourceClassDeviceParams"@, false, false, true),
        ("DRADeviceTaints"@, false, false, true),
        ("DRAAdminAccess"@, false, false, true),
        ("DRAPrioritizedList"@, false, false, true),
        ("CoordinatedLeaderElection"@, true, false, false),
        ("EndpointSliceTerminatingCondition"@, true, false, false),
        ("EndpointSliceNodeNameExpansion"@, false, false, true),
        ("EphemeralContainers"@, true, false, false),
        ("RotateKubeletServerCertificate"@, true, false, false),
        ("StatefulSetStartOrdinal"@, false, false, true),
        ("DaemonSetUpdateSurge"@, false, false, true),
        ("LegacyServiceAccountTokenCleanUp"@, false, false, true),
        ("MultiCIDRServiceAllocator"@, false, false, true),
        ("ServiceInternalTrafficPolicy"@, true, false, false),
        ("ServiceTrafficDistribution"@, false, false, true),
        ("DisableKubeletCloudCredentialProviders"@, false, false, true),
        ("DisableNodeKubeProxyVersion"@, false, false, true),
    ]
}

/// The text views of a list of `(name, enabled, read_only, pre_release)` entries.
pub open spec fn entry_views(s: Seq<(&str, bool, bool, bool)>) -> Seq<(Seq<char>, bool, bool, bool)> {
    s.map_values(|e: (&str, bool, bool, bool)| (e.0@, e.1, e.2, e.3))
}

/// The default Kubernetes feature gates as `(name, enabled, read_only, pre_release)`.
pub fn default_features() -> (r: &'static [(&'static str, bool, bool, bool)])
    ensures
        entry_views(r@) == default_feature_table(),
{
    let r: &'static [(&'static str, bool, bool, bool)] = &[
        ("AllAlpha", false, false, true),
        ("AllBeta", false, false, true),
        ("ServiceLBEndpointFinalizers", true, false, false),
        ("VolumeAttributesClass", false, false, true),
        ("SELinuxChangePolicy", false, false, true),
        ("SELinuxMountReadWriteOncePod", false, false, true),
        ("HPAContainerMetrics", false, false, true),
        ("DynamicResourceAllocation", false, false, true),
        ("DRAResourceClassDeviceParams", false, false, true),
        ("DRADeviceTaints", false, false, true),
        ("DRAAdminAccess", false, false, true),
        ("DRAPrioritizedList", false, false, true),
        ("CoordinatedLeaderElection", true, false, false),
        ("EndpointSliceTerminatingCondition", true, false, false),
        ("EndpointSliceNodeNameExpansion", false, false, true),
        ("EphemeralContainers", true, false, false),
        ("RotateKubeletServerCertificate", true, false, false),
        ("StatefulSetStartOrdinal", false, false, true),
        ("DaemonSetUpdateSurge", false, false, true),
        ("LegacyServiceAccountTokenCleanUp", false, false, true),
        ("MultiCIDRServiceAllocator", false, false, true),
        ("ServiceInternalTrafficPolicy", true, false, false),
        ("ServiceTrafficDistribution", false, false, true),
        ("DisableKubeletCloudCredentialProviders", false, false, true),
        ("DisableNodeKubeProxyVersion", false, false, true),
    ];
    assert(entry_views(r@) =~= default_feature_table());
    r
}

} // verus!
