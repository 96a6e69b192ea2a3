//! Conversions of tuples of configurations into a collection, one element per
//! component, for tuples of one to twenty components.
use vstd::prelude::*;
use crate::config::{
    views_of, IntoSystemConfigs, IntoSystemSetConfigs, NodeConfigs, SystemConfigTupleMarker,
    SystemConfigs, SystemSetConfigs,
};
use crate::config_view::{conditions_view, NodeConfigsView};
use crate::graph::{BoxedCondition, BoxedSystem, Chain, ChainView, Condition, InternedSystemSet};

verus! {

impl<O, P0, S0: IntoSystemConfigs<P0, O>> IntoSystemConfigs<(SystemConfigTupleMarker, P0, ), O> for (S0, ) {
    open spec fn configs_view(&self) -> NodeConfigsView<BoxedSystem, O> {
        NodeConfigsView::Configs {
            configs: seq![self.0.configs_view()],
            collective_conditions: Seq::empty(),
            chained: ChainView::Unchained,
        }
    }

    fn into_configs(self) -> (r: SystemConfigs<O>)
        ensures
            r@ is Configs,
            r@->configs.len() == 1,
            r@->configs[0] == self.0.configs_view(),
            r@->collective_conditions.len() == 0,
            r@->chained is Unchained,
    {
        let (s0, ) = self;
        let ghost views = seq![s0.configs_view()];
        let configs = vec![s0.into_configs()];
        let collective_conditions: Vec<BoxedCondition> = Vec::new();
        proof {
            assert(views_of(configs@) =~= views);
            assert(conditions_view(collective_conditions@) =~= Seq::<Condition>::empty());
        }
        NodeConfigs::Configs { configs, collective_conditions, chained: Chain::default() }
    }
}

impl<O, P0, S0: IntoSystemConfigs<P0, O>, P1, S1: IntoSystemConfigs<P1, O>> IntoSystemConfigs<(SystemConfigTupleMarker, P0, P1, ), O> for (S0, S1, ) {
    open spec fn configs_view(&self) -> NodeConfigsView<BoxedSystem, O> {
        NodeConfigsView::Configs {
            configs: seq![self.0.configs_view(), self.1.configs_view()],
            collective_conditions: Seq::empty(),
            chained: ChainView::Unchained,
        }
    }

    fn into_configs(self) -> (r: SystemConfigs<O>)
        ensures
            r@ is Configs,
            r@->configs.len() == 2,
            r@->configs[0] == self.0.configs_view(),
            r@->configs[1] == self.1.configs_view(),
            r@->collective_conditions.len() == 0,
            r@->chained is Unchained,
    {
        let (s0, s1, ) = self;
        let ghost views = seq![s0.configs_view(), s1.configs_view()];
        let configs = vec![s0.into_configs(), s1.into_configs()];
        let collective_conditions: Vec<BoxedCondition> = Vec::new();
        proof {
            assert(views_of(configs@) =~= views);
            assert(conditions_view(collective_conditions@) =~= Seq::<Condition>::empty());
        }
        NodeConfigs::Configs { configs, collective_conditions, chained: Chain::default() }
    }
}

impl<O, P0, S0: IntoSystemConfigs<P0, O>, P1, S1: IntoSystemConfigs<P1, O>, P2, S2: IntoSystemConfigs<P2, O>> IntoSystemConfigs<(SystemConfigTupleMarker, P0, P1, P2, ), O> for (S0, S1, S2, ) {
    open spec fn configs_view(&self) -> NodeConfigsView<BoxedSystem, O> {
        NodeConfigsView::Configs {
            configs: seq![self.0.configs_view(), self.1.configs_view(), self.2.configs_view()],
            collective_conditions: Seq::empty(),
            chained: ChainView::Unchained,
        }
    }

    fn into_configs(self) -> (r: SystemConfigs<O>)
        ensures
            r@ is Configs,
            r@->configs.len() == 3,
            r@->configs[0] == self.0.configs_view(),
            r@->configs[1] == self.1.configs_view(),
            r@->configs[2] == self.2.configs_view(),
            r@->collective_conditions.len() == 0,
            r@->chained is Unchained,
    {
        let (s0, s1, s2, ) = self;
        let ghost views = seq![s0.configs_view(), s1.configs_view(), s2.configs_view()];
        let configs = vec![s0.into_configs(), s1.into_configs(), s2.into_configs()];
        let collective_conditions: Vec<BoxedCondition> = Vec::new();
        proof {
            assert(views_of(configs@) =~= views);
            assert(conditions_view(collective_conditions@) =~= Seq::<Condition>::empty());
        }
        NodeConfigs::Configs { configs, collective_conditions, chained: Chain::default() }
    }
}

impl<O, P0, S0: IntoSystemConfigs<P0, O>, P1, S1: IntoSystemConfigs<P1, O>, P2, S2: IntoSystemConfigs<P2, O>, P3, S3: IntoSystemConfigs<P3, O>> IntoSystemConfigs<(SystemConfigTupleMarker, P0, P1, P2, P3, ), O> for (S0, S1, S2, S3, ) {
    open spec fn configs_view(&self) -> NodeConfigsView<BoxedSystem, O> {
        NodeConfigsView::Configs {
            configs: seq![self.0.configs_view(), self.1.configs_view(), self.2.configs_view(), self.3.configs_view()],
            collective_conditions: Seq::empty(),
            chained: ChainView::Unchained,
        }
    }

    fn into_configs(self) -> (r: SystemConfigs<O>)
        ensures
            r@ is Configs,
            r@->configs.len() == 4,
            r@->configs[0] == self.0.configs_view(),
            r@->configs[1] == self.1.configs_view(),
            r@->configs[2] == self.2.configs_view(),
            r@->configs[3] == self.3.configs_view(),
            r@->collective_conditions.len() == 0,
            r@->chained is Unchained,
    {
        let (s0, s1, s2, s3, ) = self;
        let ghost views = seq![s0.configs_view(), s1.configs_view(), s2.configs_view(), s3.configs_view()];
        let configs = vec![s0.into_configs(), s1.into_configs(), s2.into_configs(), s3.into_configs()];
        let collective_conditions: Vec<BoxedCondition> = Vec::new();
        proof {
            assert(views_of(configs@) =~= views);
            assert(conditions_view(collective_conditions@) =~= Seq::<Condition>::empty());
        }
        NodeConfigs::Configs { configs, collective_conditions, chained: Chain::default() }
    }
}

impl<O, P0, S0: IntoSystemConfigs<P0, O>, P1, S1: IntoSystemConfigs<P1, O>, P2, S2: IntoSystemConfigs<P2, O>, P3, S3: IntoSystemConfigs<P3, O>, P4, S4: IntoSystemConfigs<P4, O>> IntoSystemConfigs<(SystemConfigTupleMarker, P0, P1, P2, P3, P4, ), O> for (S0, S1, S2, S3, S4, ) {
    open spec fn configs_view(&self) -> NodeConfigsView<BoxedSystem, O> {
        NodeConfigsView::Configs {
            configs: seq![self.0.configs_view(), self.1.configs_view(), self.2.configs_view(), self.3.configs_view(), self.4.configs_view()],
            collective_conditions: Seq::empty(),
            chained: ChainView::Unchained,
        }
    }

    fn into_configs(self) -> (r: SystemConfigs<O>)
        ensures
            r@ is Configs,
            r@->configs.len() == 5,
            r@->configs[0] == self.0.configs_view(),
            r@->configs[1] == self.1.configs_view(),
            r@->configs[2] == self.2.configs_view(),
            r@->configs[3] == self.3.configs_view(),
            r@->configs[4] == self.4.configs_view(),
            r@->collective_conditions.len() == 0,
            r@->chained is Unchained,
    {
        let (s0, s1, s2, s3, s4, ) = self;
        let ghost views = seq![s0.configs_view(), s1.configs_view(), s2.configs_view(), s3.configs_view(), s4.configs_view()];
        let configs = vec![s0.into_configs(), s1.into_configs(), s2.into_configs(), s3.into_configs(), s4.into_configs()];
        let collective_conditions: Vec<BoxedCondition> = Vec::new();
        proof {
            assert(views_of(configs@) =~= views);
            assert(conditions_view(collective_conditions@) =~= Seq::<Condition>::empty());
        }
        NodeConfigs::Configs { configs, collective_conditions, chained: Chain::default() }
    }
}

impl<O, P0, S0: IntoSystemConfigs<P0, O>, P1, S1: IntoSystemConfigs<P1, O>, P2, S2: IntoSystemConfigs<P2, O>, P3, S3: IntoSystemConfigs<P3, O>, P4, S4: IntoSystemConfigs<P4, O>, P5, S5: IntoSystemConfigs<P5, O>> IntoSystemConfigs<(SystemConfigTupleMarker, P0, P1, P2, P3, P4, P5, ), O> for (S0, S1, S2, S3, S4, S5, ) {
    open spec fn configs_view(&self) -> NodeConfigsView<BoxedSystem, O> {
        NodeConfigsView::Configs {
            configs: seq![self.0.configs_view(), self.1.configs_view(), self.2.configs_view(), self.3.configs_view(), self.4.configs_view(), self.5.configs_view()],
            collective_conditions: Seq::empty(),
            chained: ChainView::Unchained,
        }
    }

    fn into_configs(self) -> (r: SystemConfigs<O>)
        ensures
            r@ is Configs,
            r@->configs.len() == 6,
            r@->configs[0] == self.0.configs_view(),
            r@->configs[1] == self.1.configs_view(),
            r@->configs[2] == self.2.configs_view(),
            r@->configs[3] == self.3.configs_view(),
            r@->configs[4] == self.4.configs_view(),
            r@->configs[5] == self.5.configs_view(),
            r@->collective_conditions.len() == 0,
            r@->chained is Unchained,
    {
        let (s0, s1, s2, s3, s4, s5, ) = self;
        let ghost views = seq![s0.configs_view(), s1.configs_view(), s2.configs_view(), s3.configs_view(), s4.configs_view(), s5.configs_view()];
        let configs = vec![s0.into_configs(), s1.into_configs(), s2.into_configs(), s3.into_configs(), s4.into_configs(), s5.into_configs()];
        let collective_conditions: Vec<BoxedCondition> = Vec::new();
        proof {
            assert(views_of(configs@) =~= views);
            assert(conditions_view(collective_conditions@) =~= Seq::<Condition>::empty());
        }
        NodeConfigs::Configs { configs, collective_conditions, chained: Chain::default() }
    }
}

impl<O, P0, S0: IntoSystemConfigs<P0, O>, P1, S1: IntoSystemConfigs<P1, O>, P2, S2: IntoSystemConfigs<P2, O>, P3, S3: IntoSystemConfigs<P3, O>, P4, S4: IntoSystemConfigs<P4, O>, P5, S5: IntoSystemConfigs<P5, O>, P6, S6: IntoSystemConfigs<P6, O>> IntoSystemConfigs<(SystemConfigTupleMarker, P0, P1, P2, P3, P4, P5, P6, ), O> for (S0, S1, S2, S3, S4, S5, S6, ) {
    open spec fn configs_view(&self) -> NodeConfigsView<BoxedSystem, O> {
        NodeConfigsView::Configs {
            configs: seq![self.0.configs_view(), self.1.configs_view(), self.2.configs_view(), self.3.configs_view(), self.4.configs_view(), self.5.configs_view(), self.6.configs_view()],
            collective_conditions: Seq::empty(),
            chained: ChainView::Unchained,
        }
    }

    fn into_configs(self) -> (r: SystemConfigs<O>)
        ensures
            r@ is Configs,
            r@->configs.len() == 7,
            r@->configs[0] == self.0.configs_view(),
            r@->configs[1] == self.1.configs_view(),
            r@->configs[2] == self.2.configs_view(),
            r@->configs[3] == self.3.configs_view(),
            r@->configs[4] == self.4.configs_view(),
            r@->configs[5] == self.5.configs_view(),
            r@->configs[6] == self.6.configs_view(),
            r@->collective_conditions.len() == 0,
            r@->chained is Unchained,
    {
        let (s0, s1, s2, s3, s4, s5, s6, ) = self;
        let ghost views = seq![s0.configs_view(), s1.configs_view(), s2.configs_view(), s3.configs_view(), s4.configs_view(), s5.configs_view(), s6.configs_view()];
        let configs = vec![s0.into_configs(), s1.into_configs(), s2.into_configs(), s3.into_configs(), s4.into_configs(), s5.into_configs(), s6.into_configs()];
        let collective_conditions: Vec<BoxedCondition> = Vec::new();
        proof {
            assert(views_of(configs@) =~= views);
            assert(conditions_view(collective_conditions@) =~= Seq::<Condition>::empty());
        }
        NodeConfigs::Configs { configs, collective_conditions, chained: Chain::default() }
    }
}

impl<O, P0, S0: IntoSystemConfigs<P0, O>, P1, S1: IntoSystemConfigs<P1, O>, P2, S2: IntoSystemConfigs<P2, O>, P3, S3: IntoSystemConfigs<P3, O>, P4, S4: IntoSystemConfigs<P4, O>, P5, S5: IntoSystemConfigs<P5, O>, P6, S6: IntoSystemConfigs<P6, O>, P7, S7: IntoSystemConfigs<P7, O>> IntoSystemConfigs<(SystemConfigTupleMarker, P0, P1, P2, P3, P4, P5, P6, P7, ), O> for (S0, S1, S2, S3, S4, S5, S6, S7, ) {
    open spec fn configs_view(&self) -> NodeConfigsView<BoxedSystem, O> {
        NodeConfigsView::Configs {
            configs: seq![self.0.configs_view(), self.1.configs_view(), self.2.configs_view(), self.3.configs_view(), self.4.configs_view(), self.5.configs_view(), self.6.configs_view(), self.7.configs_view()],
            collective_conditions: Seq::empty(),
            chained: ChainView::Unchained,
        }
    }

    fn into_configs(self) -> (r: SystemConfigs<O>)
        ensures
            r@ is Configs,
            r@->configs.len() == 8,
            r@->configs[0] == self.0.configs_view(),
            r@->configs[1] == self.1.configs_view(),
            r@->configs[2] == self.2.configs_view(),
            r@->configs[3] == self.3.configs_view(),
            r@->configs[4] == self.4.configs_view(),
            r@->configs[5] == self.5.configs_view(),
            r@->configs[6] == self.6.configs_view(),
            r@->configs[7] == self.7.configs_view(),
            r@->collective_conditions.len() == 0,
            r@->chained is Unchained,
    {
        let (s0, s1, s2, s3, s4, s5, s6, s7, ) = self;
        let ghost views = seq![s0.configs_view(), s1.configs_view(), s2.configs_view(), s3.configs_view(), s4.configs_view(), s5.configs_view(), s6.configs_view(), s7.configs_view()];
        let configs = vec![s0.into_configs(), s1.into_configs(), s2.into_configs(), s3.into_configs(), s4.into_configs(), s5.into_configs(), s6.into_configs(), s7.into_configs()];
        let collective_conditions: Vec<BoxedCondition> = Vec::new();
        proof {
            assert(views_of(configs@) =~= views);
            assert(conditions_view(collective_conditions@) =~= Seq::<Condition>::empty());
        }
        NodeConfigs::Configs { configs, collective_conditions, chained: Chain::default() }
    }
}

impl<O, P0, S0: IntoSystemConfigs<P0, O>, P1, S1: IntoSystemConfigs<P1, O>, P2, S2: IntoSystemConfigs<P2, O>, P3, S3: IntoSystemConfigs<P3, O>, P4, S4: IntoSystemConfigs<P4, O>, P5, S5: IntoSystemConfigs<P5, O>, P6, S6: IntoSystemConfigs<P6, O>, P7, S7: IntoSystemConfigs<P7, O>, P8, S8: IntoSystemConfigs<P8, O>> IntoSystemConfigs<(SystemConfigTupleMarker, P0, P1, P2, P3, P4, P5, P6, P7, P8, ), O> for (S0, S1, S2, S3, S4, S5, S6, S7, S8, ) {
    open spec fn configs_view(&self) -> NodeConfigsView<BoxedSystem, O> {
        NodeConfigsView::Configs {
            configs: seq![self.0.configs_view(), self.1.configs_view(), self.2.configs_view(), self.3.configs_view(), self.4.configs_view(), self.5.configs_view(), self.6.configs_view(), self.7.configs_view(), self.8.configs_view()],
            collective_conditions: Seq::empty(),
            chained: ChainView::Unchained,
        }
    }

    fn into_configs(self) -> (r: SystemConfigs<O>)
        ensures
            r@ is Configs,
            r@->configs.len() == 9,
            r@->configs[0] == self.0.configs_view(),
            r@->configs[1] == self.1.configs_view(),
            r@->configs[2] == self.2.configs_view(),
            r@->configs[3] == self.3.configs_view(),
            r@->configs[4] == self.4.configs_view(),
            r@->configs[5] == self.5.configs_view(),
            r@->configs[6] == self.6.configs_view(),
            r@->configs[7] == self.7.configs_view(),
            r@->configs[8] == self.8.configs_view(),
            r@->collective_conditions.len() == 0,
            r@->chained is Unchained,
    {
        let (s0, s1, s2, s3, s4, s5, s6, s7, s8, ) = self;
        let ghost views = seq![s0.configs_view(), s1.configs_view(), s2.configs_view(), s3.configs_view(), s4.configs_view(), s5.configs_view(), s6.configs_view(), s7.configs_view(), s8.configs_view()];
        let configs = vec![s0.into_configs(), s1.into_configs(), s2.into_configs(), s3.into_configs(), s4.into_configs(), s5.into_configs(), s6.into_configs(), s7.into_configs(), s8.into_configs()];
        let collective_conditions: Vec<BoxedCondition> = Vec::new();
        proof {
            assert(views_of(configs@) =~= views);
            assert(conditions_view(collective_conditions@) =~= Seq::<Condition>::empty());
        }
        NodeConfigs::Configs { configs, collective_conditions, chained: Chain::default() }
    }
}

impl<O, P0, S0: IntoSystemConfigs<P0, O>, P1, S1: IntoSystemConfigs<P1, O>, P2, S2: IntoSystemConfigs<P2, O>, P3, S3: IntoSystemConfigs<P3, O>, P4, S4: IntoSystemConfigs<P4, O>, P5, S5: IntoSystemConfigs<P5, O>, P6, S6: IntoSystemConfigs<P6, O>, P7, S7: IntoSystemConfigs<P7, O>, P8, S8: IntoSystemConfigs<P8, O>, P9, S9: IntoSystemConfigs<P9, O>> IntoSystemConfigs<(SystemConfigTupleMarker, P0, P1, P2, P3, P4, P5, P6, P7, P8, P9, ), O> for (S0, S1, S2, S3, S4, S5, S6, S7, S8, S9, ) {
    open spec fn configs_view(&self) -> NodeConfigsView<BoxedSystem, O> {
        NodeConfigsView::Configs {
            configs: seq![self.0.configs_view(), self.1.configs_view(), self.2.configs_view(), self.3.configs_view(), self.4.configs_view(), self.5.configs_view(), self.6.configs_view(), self.7.configs_view(), self.8.configs_view(), self.9.configs_view()],
            collective_conditions: Seq::empty(),
            chained: ChainView::Unchained,
        }
    }

    fn into_configs(self) -> (r: SystemConfigs<O>)
        ensures
            r@ is Configs,
            r@->configs.len() == 10,
            r@->configs[0] == self.0.configs_view(),
            r@->configs[1] == self.1.configs_view(),
            r@->configs[2] == self.2.configs_view(),
            r@->configs[3] == self.3.configs_view(),
            r@->configs[4] == self.4.configs_view(),
            r@->configs[5] == self.5.configs_view(),
            r@->configs[6] == self.6.configs_view(),
            r@->configs[7] == self.7.configs_view(),
            r@->configs[8] == self.8.configs_view(),
            r@->configs[9] == self.9.configs_view(),
            r@->collective_conditions.len() == 0,
            r@->chained is Unchained,
    {
        let (s0, s1, s2, s3, s4, s5, s6, s7, s8, s9, ) = self;
        let ghost views = seq![s0.configs_view(), s1.configs_view(), s2.configs_view(), s3.configs_view(), s4.configs_view(), s5.configs_view(), s6.configs_view(), s7.configs_view(), s8.configs_view(), s9.configs_view()];
        let configs = vec![s0.into_configs(), s1.into_configs(), s2.into_configs(), s3.into_configs(), s4.into_configs(), s5.into_configs(), s6.into_configs(), s7.into_configs(), s8.into_configs(), s9.into_configs()];
        let collective_conditions: Vec<BoxedCondition> = Vec::new();
        proof {
            assert(views_of(configs@) =~= views);
            assert(conditions_view(collective_conditions@) =~= Seq::<Condition>::empty());
        }
        NodeConfigs::Configs { configs, collective_conditions, chained: Chain::default() }
    }
}

impl<O, P0, S0: IntoSystemConfigs<P0, O>, P1, S1: IntoSystemConfigs<P1, O>, P2, S2: IntoSystemConfigs<P2, O>, P3, S3: IntoSystemConfigs<P3, O>, P4, S4: IntoSystemConfigs<P4, O>, P5, S5: IntoSystemConfigs<P5, O>, P6, S6: IntoSystemConfigs<P6, O>, P7, S7: IntoSystemConfigs<P7, O>, P8, S8: IntoSystemConfigs<P8, O>, P9, S9: IntoSystemConfigs<P9, O>, P10, S10: IntoSystemConfigs<P10, O>> IntoSystemConfigs<(SystemConfigTupleMarker, P0, P1, P2, P3, P4, P5, P6, P7, P8, P9, P10, ), O> for (S0, S1, S2, S3, S4, S5, S6, S7, S8, S9, S10, ) {
    open spec fn configs_view(&self) -> NodeConfigsView<BoxedSystem, O> {
        NodeConfigsView::Configs {
            configs: seq![self.0.configs_view(), self.1.configs_view(), self.2.configs_view(), self.3.configs_view(), self.4.configs_view(), self.5.configs_view(), self.6.configs_view(), self.7.configs_view(), self.8.configs_view(), self.9.configs_view(), self.10.configs_view()],
            collective_conditions: Seq::empty(),
            chained: ChainView::Unchained,
        }
    }

    fn into_configs(self) -> (r: SystemConfigs<O>)
        ensures
            r@ is Configs,
            r@->configs.len() == 11,
            r@->configs[0] == self.0.configs_view(),
            r@->configs[1] == self.1.configs_view(),
            r@->configs[2] == self.2.configs_view(),
            r@->configs[3] == self.3.configs_view(),
            r@->configs[4] == self.4.configs_view(),
            r@->configs[5] == self.5.configs_view(),
            r@->configs[6] == self.6.configs_view(),
            r@->configs[7] == self.7.configs_view(),
            r@->configs[8] == self.8.configs_view(),
            r@->configs[9] == self.9.configs_view(),
            r@->configs[10] == self.10.configs_view(),
            r@->collective_conditions.len() == 0,
            r@->chained is Unchained,
    {
        let (s0, s1, s2, s3, s4, s5, s6, s7, s8, s9, s10, ) = self;
        let ghost views = seq![s0.configs_view(), s1.configs_view(), s2.configs_view(), s3.configs_view(), s4.configs_view(), s5.configs_view(), s6.configs_view(), s7.configs_view(), s8.configs_view(), s9.configs_view(), s10.configs_view()];
        let configs = vec![s0.into_configs(), s1.into_configs(), s2.into_configs(), s3.into_configs(), s4.into_configs(), s5.into_configs(), s6.into_configs(), s7.into_configs(), s8.into_configs(), s9.into_configs(), s10.into_configs()];
        let collective_conditions: Vec<BoxedCondition> = Vec::new();
        proof {
            assert(views_of(configs@) =~= views);
            assert(conditions_view(collective_conditions@) =~= Seq::<Condition>::empty());
        }
        NodeConfigs::Configs { configs, collective_conditions, chained: Chain::default() }
    }
}

impl<O, P0, S0: IntoSystemConfigs<P0, O>, P1, S1: IntoSystemConfigs<P1, O>, P2, S2: IntoSystemConfigs<P2, O>, P3, S3: IntoSystemConfigs<P3, O>, P4, S4: IntoSystemConfigs<P4, O>, P5, S5: IntoSystemConfigs<P5, O>, P6, S6: IntoSystemConfigs<P6, O>, P7, S7: IntoSystemConfigs<P7, O>, P8, S8: IntoSystemConfigs<P8, O>, P9, S9: IntoSystemConfigs<P9, O>, P10, S10: IntoSystemConfigs<P10, O>, P11, S11: IntoSystemConfigs<P11, O>> IntoSystemConfigs<(SystemConfigTupleMarker, P0, P1, P2, P3, P4, P5, P6, P7, P8, P9, P10, P11, ), O> for (S0, S1, S2, S3, S4, S5, S6, S7, S8, S9, S10, S11, ) {
    open spec fn configs_view(&self) -> NodeConfigsView<BoxedSystem, O> {
        NodeConfigsView::Configs {
            configs: seq![self.0.configs_view(), self.1.configs_view(), self.2.configs_view(), self.3.configs_view(), self.4.configs_view(), self.5.configs_view(), self.6.configs_view(), self.7.configs_view(), self.8.configs_view(), self.9.configs_view(), self.10.configs_view(), self.11.configs_view()],
            collective_conditions: Seq::empty(),
            chained: ChainView::Unchained,
        }
    }

    fn into_configs(self) -> (r: SystemConfigs<O>)
        ensures
            r@ is Configs,
            r@->configs.len() == 12,
            r@->configs[0] == self.0.configs_view(),
            r@->configs[1] == self.1.configs_view(),
            r@->configs[2] == self.2.configs_view(),
            r@->configs[3] == self.3.configs_view(),
            r@->configs[4] == self.4.configs_view(),
            r@->configs[5] == self.5.configs_view(),
            r@->configs[6] == self.6.configs_view(),
            r@->configs[7] == self.7.configs_view(),
            r@->configs[8] == self.8.configs_view(),
            r@->configs[9] == self.9.configs_view(),
            r@->configs[10] == self.10.configs_view(),
            r@->configs[11] == self.11.configs_view(),
            r@->collective_conditions.len() == 0,
            r@->chained is Unchained,
    {
        let (s0, s1, s2, s3, s4, s5, s6, s7, s8, s9, s10, s11, ) = self;
        let ghost views = seq![s0.configs_view(), s1.configs_view(), s2.configs_view(), s3.configs_view(), s4.configs_view(), s5.configs_view(), s6.configs_view(), s7.configs_view(), s8.configs_view(), s9.configs_view(), s10.configs_view(), s11.configs_view()];
        let configs = vec![s0.into_configs(), s1.into_configs(), s2.into_configs(), s3.into_configs(), s4.into_configs(), s5.into_configs(), s6.into_configs(), s7.into_configs(), s8.into_configs(), s9.into_configs(), s10.into_configs(), s11.into_configs()];
        let collective_conditions: Vec<BoxedCondition> = Vec::new();
        proof {
            assert(views_of(configs@) =~= views);
            assert(conditions_view(collective_conditions@) =~= Seq::<Condition>::empty());
        }
        NodeConfigs::Configs { configs, collective_conditions, chained: Chain::default() }
    }
}

impl<O, P0, S0: IntoSystemConfigs<P0, O>, P1, S1: IntoSystemConfigs<P1, O>, P2, S2: IntoSystemConfigs<P2, O>, P3, S3: IntoSystemConfigs<P3, O>, P4, S4: IntoSystemConfigs<P4, O>, P5, S5: IntoSystemConfigs<P5, O>, P6, S6: IntoSystemConfigs<P6, O>, P7, S7: IntoSystemConfigs<P7, O>, P8, S8: IntoSystemConfigs<P8, O>, P9, S9: IntoSystemConfigs<P9, O>, P10, S10: IntoSystemConfigs<P10, O>, P11, S11: IntoSystemConfigs<P11, O>, P12, S12: IntoSystemConfigs<P12, O>> IntoSystemConfigs<(SystemConfigTupleMarker, P0, P1, P2, P3, P4, P5, P6, P7, P8, P9, P10, P11, P12, ), O> for (S0, S1, S2, S3, S4, S5, S6, S7, S8, S9, S10, S11, S12, ) {
    open spec fn configs_view(&self) -> NodeConfigsView<BoxedSystem, O> {
        NodeConfigsView::Configs {
            configs: seq![self.0.configs_view(), self.1.configs_view(), self.2.configs_view(), self.3.configs_view(), self.4.configs_view(), self.5.configs_view(), self.6.configs_view(), self.7.configs_view(), self.8.configs_view(), self.9.configs_view(), self.10.configs_view(), self.11.configs_view(), self.12.configs_view()],
            collective_conditions: Seq::empty(),
            chained: ChainView::Unchained,
        }
    }

    fn into_configs(self) -> (r: SystemConfigs<O>)
        ensures
            r@ is Configs,
            r@->configs.len() == 13,
            r@->configs[0] == self.0.configs_view(),
            r@->configs[1] == self.1.configs_view(),
            r@->configs[2] == self.2.configs_view(),
            r@->configs[3] == self.3.configs_view(),
            r@->configs[4] == self.4.configs_view(),
            r@->configs[5] == self.5.configs_view(),
            r@->configs[6] == self.6.configs_view(),
            r@->configs[7] == self.7.configs_view(),
            r@->configs[8] == self.8.configs_view(),
            r@->configs[9] == self.9.configs_view(),
            r@->configs[10] == self.10.configs_view(),
            r@->configs[11] == self.11.configs_view(),
            r@->configs[12] == self.12.configs_view(),
            r@->collective_conditions.len() == 0,
            r@->chained is Unchained,
    {
        let (s0, s1, s2, s3, s4, s5, s6, s7, s8, s9, s10, s11, s12, ) = self;
        let ghost views = seq![s0.configs_view(), s1.configs_view(), s2.configs_view(), s3.configs_view(), s4.configs_view(), s5.configs_view(), s6.configs_view(), s7.configs_view(), s8.configs_view(), s9.configs_view(), s10.configs_view(), s11.configs_view(), s12.configs_view()];
        let configs = vec![s0.into_configs(), s1.into_configs(), s2.into_configs(), s3.into_configs(), s4.into_configs(), s5.into_configs(), s6.into_configs(), s7.into_configs(), s8.into_configs(), s9.into_configs(), s10.into_configs(), s11.into_configs(), s12.into_configs()];
        let collective_conditions: Vec<BoxedCondition> = Vec::new();
        proof {
            assert(views_of(configs@) =~= views);
            assert(conditions_view(collective_conditions@) =~= Seq::<Condition>::empty());
        }
        NodeConfigs::Configs { configs, collective_conditions, chained: Chain::default() }
    }
}

impl<O, P0, S0: IntoSystemConfigs<P0, O>, P1, S1: IntoSystemConfigs<P1, O>, P2, S2: IntoSystemConfigs<P2, O>, P3, S3: IntoSystemConfigs<P3, O>, P4, S4: IntoSystemConfigs<P4, O>, P5, S5: IntoSystemConfigs<P5, O>, P6, S6: IntoSystemConfigs<P6, O>, P7, S7: IntoSystemConfigs<P7, O>, P8, S8: IntoSystemConfigs<P8, O>, P9, S9: IntoSystemConfigs<P9, O>, P10, S10: IntoSystemConfigs<P10, O>, P11, S11: IntoSystemConfigs<P11, O>, P12, S12: IntoSystemConfigs<P12, O>, P13, S13: IntoSystemConfigs<P13, O>> IntoSystemConfigs<(SystemConfigTupleMarker, P0, P1, P2, P3, P4, P5, P6, P7, P8, P9, P10, P11, P12, P13, ), O> for (S0, S1, S2, S3, S4, S5, S6, S7, S8, S9, S10, S11, S12, S13, ) {
    open spec fn configs_view(&self) -> NodeConfigsView<BoxedSystem, O> {
        NodeConfigsView::Configs {
            configs: seq![self.0.configs_view(), self.1.configs_view(), self.2.configs_view(), self.3.configs_view(), self.4.configs_view(), self.5.configs_view(), self.6.configs_view(), self.7.configs_view(), self.8.configs_view(), self.9.configs_view(), self.10.configs_view(), self.11.configs_view(), self.12.configs_view(), self.13.configs_view()],
            collective_conditions: Seq::empty(),
            chained: ChainView::Unchained,
        }
    }

    fn into_configs(self) -> (r: SystemConfigs<O>)
        ensures
            r@ is Configs,
            r@->configs.len() == 14,
            r@->configs[0] == self.0.configs_view(),
            r@->configs[1] == self.1.configs_view(),
            r@->configs[2] == self.2.configs_view(),
            r@->configs[3] == self.3.configs_view(),
            r@->configs[4] == self.4.configs_view(),
            r@->configs[5] == self.5.configs_view(),
            r@->configs[6] == self.6.configs_view(),
            r@->configs[7] == self.7.configs_view(),
            r@->configs[8] == self.8.configs_view(),
            r@->configs[9] == self.9.configs_view(),
            r@->configs[10] == self.10.configs_view(),
            r@->configs[11] == self.11.configs_view(),
            r@->configs[12] == self.12.configs_view(),
            r@->configs[13] == self.13.configs_view(),
            r@->collective_conditions.len() == 0,
            r@->chained is Unchained,
    {
        let (s0, s1, s2, s3, s4, s5, s6, s7, s8, s9, s10, s11, s12, s13, ) = self;
        let ghost views = seq![s0.configs_view(), s1.configs_view(), s2.configs_view(), s3.configs_view(), s4.configs_view(), s5.configs_view(), s6.configs_view(), s7.configs_view(), s8.configs_view(), s9.configs_view(), s10.configs_view(), s11.configs_view(), s12.configs_view(), s13.configs_view()];
        let configs = vec![s0.into_configs(), s1.into_configs(), s2.into_configs(), s3.into_configs(), s4.into_configs(), s5.into_configs(), s6.into_configs(), s7.into_configs(), s8.into_configs(), s9.into_configs(), s10.into_configs(), s11.into_configs(), s12.into_configs(), s13.into_configs()];
        let collective_conditions: Vec<BoxedCondition> = Vec::new();
        proof {
            assert(views_of(configs@) =~= views);
            assert(conditions_view(collective_conditions@) =~= Seq::<Condition>::empty());
        }
        NodeConfigs::Configs { configs, collective_conditions, chained: Chain::default() }
    }
}

impl<O, P0, S0: IntoSystemConfigs<P0, O>, P1, S1: IntoSystemConfigs<P1, O>, P2, S2: IntoSystemConfigs<P2, O>, P3, S3: IntoSystemConfigs<P3, O>, P4, S4: IntoSystemConfigs<P4, O>, P5, S5: IntoSystemConfigs<P5, O>, P6, S6: IntoSystemConfigs<P6, O>, P7, S7: IntoSystemConfigs<P7, O>, P8, S8: IntoSystemConfigs<P8, O>, P9, S9: IntoSystemConfigs<P9, O>, P10, S10: IntoSystemConfigs<P10, O>, P11, S11: IntoSystemConfigs<P11, O>, P12, S12: IntoSystemConfigs<P12, O>, P13, S13: IntoSystemConfigs<P13, O>, P14, S14: IntoSystemConfigs<P14, O>> IntoSystemConfigs<(SystemConfigTupleMarker, P0, P1, P2, P3, P4, P5, P6, P7, P8, P9, P10, P11, P12, P13, P14, ), O> for (S0, S1, S2, S3, S4, S5, S6, S7, S8, S9, S10, S11, S12, S13, S14, ) {
    open spec fn configs_view(&self) -> NodeConfigsView<BoxedSystem, O> {
        NodeConfigsView::Configs {
            configs: seq![self.0.configs_view(), self.1.configs_view(), self.2.configs_view(), self.3.configs_view(), self.4.configs_view(), self.5.configs_view(), self.6.configs_view(), self.7.configs_view(), self.8.configs_view(), self.9.configs_view(), self.10.configs_view(), self.11.configs_view(), self.12.configs_view(), self.13.configs_view(), self.14.configs_view()],
            collective_conditions: Seq::empty(),
            chained: ChainView::Unchained,
        }
    }

    fn into_configs(self) -> (r: SystemConfigs<O>)
        ensures
            r@ is Configs,
            r@->configs.len() == 15,
            r@->configs[0] == self.0.configs_view(),
            r@->configs[1] == self.1.configs_view(),
            r@->configs[2] == self.2.configs_view(),
            r@->configs[3] == self.3.configs_view(),
            r@->configs[4] == self.4.configs_view(),
            r@->configs[5] == self.5.configs_view(),
            r@->configs[6] == self.6.configs_view(),
            r@->configs[7] == self.7.configs_view(),
            r@->configs[8] == self.8.configs_view(),
            r@->configs[9] == self.9.configs_view(),
            r@->configs[10] == self.10.configs_view(),
            r@->configs[11] == self.11.configs_view(),
            r@->configs[12] == self.12.configs_view(),
            r@->configs[13] == self.13.configs_view(),
            r@->configs[14] == self.14.configs_view(),
            r@->collective_conditions.len() == 0,
            r@->chained is Unchained,
    {
        let (s0, s1, s2, s3, s4, s5, s6, s7, s8, s9, s10, s11, s12, s13, s14, ) = self;
        let ghost views = seq![s0.configs_view(), s1.configs_view(), s2.configs_view(), s3.configs_view(), s4.configs_view(), s5.configs_view(), s6.configs_view(), s7.configs_view(), s8.configs_view(), s9.configs_view(), s10.configs_view(), s11.configs_view(), s12.configs_view(), s13.configs_view(), s14.configs_view()];
        let configs = vec![s0.into_configs(), s1.into_configs(), s2.into_configs(), s3.into_configs(), s4.into_configs(), s5.into_configs(), s6.into_configs(), s7.into_configs(), s8.into_configs(), s9.into_configs(), s10.into_configs(), s11.into_configs(), s12.into_configs(), s13.into_configs(), s14.into_configs()];
        let collective_conditions: Vec<BoxedCondition> = Vec::new();
        proof {
            assert(views_of(configs@) =~= views);
            assert(conditions_view(collective_conditions@) =~= Seq::<Condition>::empty());
        }
        NodeConfigs::Configs { configs, collective_conditions, chained: Chain::default() }
    }
}

impl<O, P0, S0: IntoSystemConfigs<P0, O>, P1, S1: IntoSystemConfigs<P1, O>, P2, S2: IntoSystemConfigs<P2, O>, P3, S3: IntoSystemConfigs<P3, O>, P4, S4: IntoSystemConfigs<P4, O>, P5, S5: IntoSystemConfigs<P5, O>, P6, S6: IntoSystemConfigs<P6, O>, P7, S7: IntoSystemConfigs<P7, O>, P8, S8: IntoSystemConfigs<P8, O>, P9, S9: IntoSystemConfigs<P9, O>, P10, S10: IntoSystemConfigs<P10, O>, P11, S11: IntoSystemConfigs<P11, O>, P12, S12: IntoSystemConfigs<P12, O>, P13, S13: IntoSystemConfigs<P13, O>, P14, S14: IntoSystemConfigs<P14, O>, P15, S15: IntoSystemConfigs<P15, O>> IntoSystemConfigs<(SystemConfigTupleMarker, P0, P1, P2, P3, P4, P5, P6, P7, P8, P9, P10, P11, P12, P13, P14, P15, ), O> for (S0, S1, S2, S3, S4, S5, S6, S7, S8, S9, S10, S11, S12, S13, S14, S15, ) {
    open spec fn configs_view(&self) -> NodeConfigsView<BoxedSystem, O> {
        NodeConfigsView::Configs {
            configs: seq![self.0.configs_view(), self.1.configs_view(), self.2.configs_view(), self.3.configs_view(), self.4.configs_view(), self.5.configs_view(), self.6.configs_view(), self.7.configs_view(), self.8.configs_view(), self.9.configs_view(), self.10.configs_view(), self.11.configs_view(), self.12.configs_view(), self.13.configs_view(), self.14.configs_view(), self.15.configs_view()],
            collective_conditions: Seq::empty(),
            chained: ChainView::Unchained,
        }
    }

    fn into_configs(self) -> (r: SystemConfigs<O>)
        ensures
            r@ is Configs,
            r@->configs.len() == 16,
            r@->configs[0] == self.0.configs_view(),
            r@->configs[1] == self.1.configs_view(),
            r@->configs[2] == self.2.configs_view(),
            r@->configs[3] == self.3.configs_view(),
            r@->configs[4] == self.4.configs_view(),
            r@->configs[5] == self.5.configs_view(),
            r@->configs[6] == self.6.configs_view(),
            r@->configs[7] == self.7.configs_view(),
            r@->configs[8] == self.8.configs_view(),
            r@->configs[9] == self.9.configs_view(),
            r@->configs[10] == self.10.configs_view(),
            r@->configs[11] == self.11.configs_view(),
            r@->configs[12] == self.12.configs_view(),
            r@->configs[13] == self.13.configs_view(),
            r@->configs[14] == self.14.configs_view(),
            r@->configs[15] == self.15.configs_view(),
            r@->collective_conditions.len() == 0,
            r@->chained is Unchained,
    {
        let (s0, s1, s2, s3, s4, s5, s6, s7, s8, s9, s10, s11, s12, s13, s14, s15, ) = self;
        let ghost views = seq![s0.configs_view(), s1.configs_view(), s2.configs_view(), s3.configs_view(), s4.configs_view(), s5.configs_view(), s6.configs_view(), s7.configs_view(), s8.configs_view(), s9.configs_view(), s10.configs_view(), s11.configs_view(), s12.configs_view(), s13.configs_view(), s14.configs_view(), s15.configs_view()];
        let configs = vec![s0.into_configs(), s1.into_configs(), s2.into_configs(), s3.into_configs(), s4.into_configs(), s5.into_configs(), s6.into_configs(), s7.into_configs(), s8.into_configs(), s9.into_configs(), s10.into_configs(), s11.into_configs(), s12.into_configs(), s13.into_configs(), s14.into_configs(), s15.into_configs()];
        let collective_conditions: Vec<BoxedCondition> = Vec::new();
        proof {
            assert(views_of(configs@) =~= views);
            assert(conditions_view(collective_conditions@) =~= Seq::<Condition>::empty());
        }
        NodeConfigs::Configs { configs, collective_conditions, chained: Chain::default() }
    }
}

impl<O, P0, S0: IntoSystemConfigs<P0, O>, P1, S1: IntoSystemConfigs<P1, O>, P2, S2: IntoSystemConfigs<P2, O>, P3, S3: IntoSystemConfigs<P3, O>, P4, S4: IntoSystemConfigs<P4, O>, P5, S5: IntoSystemConfigs<P5, O>, P6, S6: IntoSystemConfigs<P6, O>, P7, S7: IntoSystemConfigs<P7, O>, P8, S8: IntoSystemConfigs<P8, O>, P9, S9: IntoSystemConfigs<P9, O>, P10, S10: IntoSystemConfigs<P10, O>, P11, S11: IntoSystemConfigs<P11, O>, P12, S12: IntoSystemConfigs<P12, O>, P13, S13: IntoSystemConfigs<P13, O>, P14, S14: IntoSystemConfigs<P14, O>, P15, S15: IntoSystemConfigs<P15, O>, P16, S16: IntoSystemConfigs<P16, O>> IntoSystemConfigs<(SystemConfigTupleMarker, P0, P1, P2, P3, P4, P5, P6, P7, P8, P9, P10, P11, P12, P13, P14, P15, P16, ), O> for (S0, S1, S2, S3, S4, S5, S6, S7, S8, S9, S10, S11, S12, S13, S14, S15, S16, ) {
    open spec fn configs_view(&self) -> NodeConfigsView<BoxedSystem, O> {
        NodeConfigsView::Configs {
            configs: seq![self.0.configs_view(), self.1.configs_view(), self.2.configs_view(), self.3.configs_view(), self.4.configs_view(), self.5.configs_view(), self.6.configs_view(), self.7.configs_view(), self.8.configs_view(), self.9.configs_view(), self.10.configs_view(), self.11.configs_view(), self.12.configs_view(), self.13.configs_view(), self.14.configs_view(), self.15.configs_view(), self.16.configs_view()],
            collective_conditions: Seq::empty(),
            chained: ChainView::Unchained,
        }
    }

    fn into_configs(self) -> (r: SystemConfigs<O>)
        ensures
            r@ is Configs,
            r@->configs.len() == 17,
            r@->configs[0] == self.0.configs_view(),
            r@->configs[1] == self.1.configs_view(),
            r@->configs[2] == self.2.configs_view(),
            r@->configs[3] == self.3.configs_view(),
            r@->configs[4] == self.4.configs_view(),
            r@->configs[5] == self.5.configs_view(),
            r@->configs[6] == self.6.configs_view(),
            r@->configs[7] == self.7.configs_view(),
            r@->configs[8] == self.8.configs_view(),
            r@->configs[9] == self.9.configs_view(),
            r@->configs[10] == self.10.configs_view(),
            r@->configs[11] == self.11.configs_view(),
            r@->configs[12] == self.12.configs_view(),
            r@->configs[13] == self.13.configs_view(),
            r@->configs[14] == self.14.configs_view(),
            r@->configs[15] == self.15.configs_view(),
            r@->configs[16] == self.16.configs_view(),
            r@->collective_conditions.len() == 0,
            r@->chained is Unchained,
    {
        let (s0, s1, s2, s3, s4, s5, s6, s7, s8, s9, s10, s11, s12, s13, s14, s15, s16, ) = self;
        let ghost views = seq![s0.configs_view(), s1.configs_view(), s2.configs_view(), s3.configs_view(), s4.configs_view(), s5.configs_view(), s6.configs_view(), s7.configs_view(), s8.configs_view(), s9.configs_view(), s10.configs_view(), s11.configs_view(), s12.configs_view(), s13.configs_view(), s14.configs_view(), s15.configs_view(), s16.configs_view()];
        let configs = vec![s0.into_configs(), s1.into_configs(), s2.into_configs(), s3.into_configs(), s4.into_configs(), s5.into_configs(), s6.into_configs(), s7.into_configs(), s8.into_configs(), s9.into_configs(), s10.into_configs(), s11.into_configs(), s12.into_configs(), s13.into_configs(), s14.into_configs(), s15.into_configs(), s16.into_configs()];
        let collective_conditions: Vec<BoxedCondition> = Vec::new();
        proof {
            assert(views_of(configs@) =~= views);
            assert(conditions_view(collective_conditions@) =~= Seq::<Condition>::empty());
        }
        NodeConfigs::Configs { configs, collective_conditions, chained: Chain::default() }
    }
}

impl<O, P0, S0: IntoSystemConfigs<P0, O>, P1, S1: IntoSystemConfigs<P1, O>, P2, S2: IntoSystemConfigs<P2, O>, P3, S3: IntoSystemConfigs<P3, O>, P4, S4: IntoSystemConfigs<P4, O>, P5, S5: IntoSystemConfigs<P5, O>, P6, S6: IntoSystemConfigs<P6, O>, P7, S7: IntoSystemConfigs<P7, O>, P8, S8: IntoSystemConfigs<P8, O>, P9, S9: IntoSystemConfigs<P9, O>, P10, S10: IntoSystemConfigs<P10, O>, P11, S11: IntoSystemConfigs<P11, O>, P12, S12: IntoSystemConfigs<P12, O>, P13, S13: IntoSystemConfigs<P13, O>, P14, S14: IntoSystemConfigs<P14, O>, P15, S15: IntoSystemConfigs<P15, O>, P16, S16: IntoSystemConfigs<P16, O>, P17, S17: IntoSystemConfigs<P17, O>> IntoSystemConfigs<(SystemConfigTupleMarker, P0, P1, P2, P3, P4, P5, P6, P7, P8, P9, P10, P11, P12, P13, P14, P15, P16, P17, ), O> for (S0, S1, S2, S3, S4, S5, S6, S7, S8, S9, S10, S11, S12, S13, S14, S15, S16, S17, ) {
    open spec fn configs_view(&self) -> NodeConfigsView<BoxedSystem, O> {
        NodeConfigsView::Configs {
            configs: seq![self.0.configs_view(), self.1.configs_view(), self.2.configs_view(), self.3.configs_view(), self.4.configs_view(), self.5.configs_view(), self.6.configs_view(), self.7.configs_view(), self.8.configs_view(), self.9.configs_view(), self.10.configs_view(), self.11.configs_view(), self.12.configs_view(), self.13.configs_view(), self.14.configs_view(), self.15.configs_view(), self.16.configs_view(), self.17.configs_view()],
            collective_conditions: Seq::empty(),
            chained: ChainView::Unchained,
        }
    }

    fn into_configs(self) -> (r: SystemConfigs<O>)
        ensures
            r@ is Configs,
            r@->configs.len() == 18,
            r@->configs[0] == self.0.configs_view(),
            r@->configs[1] == self.1.configs_view(),
            r@->configs[2] == self.2.configs_view(),
            r@->configs[3] == self.3.configs_view(),
            r@->configs[4] == self.4.configs_view(),
            r@->configs[5] == self.5.configs_view(),
            r@->configs[6] == self.6.configs_view(),
            r@->configs[7] == self.7.configs_view(),
            r@->configs[8] == self.8.configs_view(),
            r@->configs[9] == self.9.configs_view(),
            r@->configs[10] == self.10.configs_view(),
            r@->configs[11] == self.11.configs_view(),
            r@->configs[12] == self.12.configs_view(),
            r@->configs[13] == self.13.configs_view(),
            r@->configs[14] == self.14.configs_view(),
            r@->configs[15] == self.15.configs_view(),
            r@->configs[16] == self.16.configs_view(),
            r@->configs[17] == self.17.configs_view(),
            r@->collective_conditions.len() == 0,
            r@->chained is Unchained,
    {
        let (s0, s1, s2, s3, s4, s5, s6, s7, s8, s9, s10, s11, s12, s13, s14, s15, s16, s17, ) = self;
        let ghost views = seq![s0.configs_view(), s1.configs_view(), s2.configs_view(), s3.configs_view(), s4.configs_view(), s5.configs_view(), s6.configs_view(), s7.configs_view(), s8.configs_view(), s9.configs_view(), s10.configs_view(), s11.configs_view(), s12.configs_view(), s13.configs_view(), s14.configs_view(), s15.configs_view(), s16.configs_view(), s17.configs_view()];
        let configs = vec![s0.into_configs(), s1.into_configs(), s2.into_configs(), s3.into_configs(), s4.into_configs(), s5.into_configs(), s6.into_configs(), s7.into_configs(), s8.into_configs(), s9.into_configs(), s10.into_configs(), s11.into_configs(), s12.into_configs(), s13.into_configs(), s14.into_configs(), s15.into_configs(), s16.into_configs(), s17.into_configs()];
        let collective_conditions: Vec<BoxedCondition> = Vec::new();
        proof {
            assert(views_of(configs@) =~= views);
            assert(conditions_view(collective_conditions@) =~= Seq::<Condition>::empty());
        }
        NodeConfigs::Configs { configs, collective_conditions, chained: Chain::default() }
    }
}

impl<O, P0, S0: IntoSystemConfigs<P0, O>, P1, S1: IntoSystemConfigs<P1, O>, P2, S2: IntoSystemConfigs<P2, O>, P3, S3: IntoSystemConfigs<P3, O>, P4, S4: IntoSystemConfigs<P4, O>, P5, S5: IntoSystemConfigs<P5, O>, P6, S6: IntoSystemConfigs<P6, O>, P7, S7: IntoSystemConfigs<P7, O>, P8, S8: IntoSystemConfigs<P8, O>, P9, S9: IntoSystemConfigs<P9, O>, P10, S10: IntoSystemConfigs<P10, O>, P11, S11: IntoSystemConfigs<P11, O>, P12, S12: IntoSystemConfigs<P12, O>, P13, S13: IntoSystemConfigs<P13, O>, P14, S14: IntoSystemConfigs<P14, O>, P15, S15: IntoSystemConfigs<P15, O>, P16, S16: IntoSystemConfigs<P16, O>, P17, S17: IntoSystemConfigs<P17, O>, P18, S18: IntoSystemConfigs<P18, O>> IntoSystemConfigs<(SystemConfigTupleMarker, P0, P1, P2, P3, P4, P5, P6, P7, P8, P9, P10, P11, P12, P13, P14, P15, P16, P17, P18, ), O> for (S0, S1, S2, S3, S4, S5, S6, S7, S8, S9, S10, S11, S12, S13, S14, S15, S16, S17, S18, ) {
    open spec fn configs_view(&self) -> NodeConfigsView<BoxedSystem, O> {
        NodeConfigsView::Configs {
            configs: seq![self.0.configs_view(), self.1.configs_view(), self.2.configs_view(), self.3.configs_view(), self.4.configs_view(), self.5.configs_view(), self.6.configs_view(), self.7.configs_view(), self.8.configs_view(), self.9.configs_view(), self.10.configs_view(), self.11.configs_view(), self.12.configs_view(), self.13.configs_view(), self.14.configs_view(), self.15.configs_view(), self.16.configs_view(), self.17.configs_view(), self.18.configs_view()],
            collective_conditions: Seq::empty(),
            chained: ChainView::Unchained,
        }
    }

    fn into_configs(self) -> (r: SystemConfigs<O>)
        ensures
            r@ is Configs,
            r@->configs.len() == 19,
            r@->configs[0] == self.0.configs_view(),
            r@->configs[1] == self.1.configs_view(),
            r@->configs[2] == self.2.configs_view(),
            r@->configs[3] == self.3.configs_view(),
            r@->configs[4] == self.4.configs_view(),
            r@->configs[5] == self.5.configs_view(),
            r@->configs[6] == self.6.configs_view(),
            r@->configs[7] == self.7.configs_view(),
            r@->configs[8] == self.8.configs_view(),
            r@->configs[9] == self.9.configs_view(),
            r@->configs[10] == self.10.configs_view(),
            r@->configs[11] == self.11.configs_view(),
            r@->configs[12] == self.12.configs_view(),
            r@->configs[13] == self.13.configs_view(),
            r@->configs[14] == self.14.configs_view(),
            r@->configs[15] == self.15.configs_view(),
            r@->configs[16] == self.16.configs_view(),
            r@->configs[17] == self.17.configs_view(),
            r@->configs[18] == self.18.configs_view(),
            r@->collective_conditions.len() == 0,
            r@->chained is Unchained,
    {
        let (s0, s1, s2, s3, s4, s5, s6, s7, s8, s9, s10, s11, s12, s13, s14, s15, s16, s17, s18, ) = self;
        let ghost views = seq![s0.configs_view(), s1.configs_view(), s2.configs_view(), s3.configs_view(), s4.configs_view(), s5.configs_view(), s6.configs_view(), s7.configs_view(), s8.configs_view(), s9.configs_view(), s10.configs_view(), s11.configs_view(), s12.configs_view(), s13.configs_view(), s14.configs_view(), s15.configs_view(), s16.configs_view(), s17.configs_view(), s18.configs_view()];
        let configs = vec![s0.into_configs(), s1.into_configs(), s2.into_configs(), s3.into_configs(), s4.into_configs(), s5.into_configs(), s6.into_configs(), s7.into_configs(), s8.into_configs(), s9.into_configs(), s10.into_configs(), s11.into_configs(), s12.into_configs(), s13.into_configs(), s14.into_configs(), s15.into_configs(), s16.into_configs(), s17.into_configs(), s18.into_configs()];
        let collective_conditions: Vec<BoxedCondition> = Vec::new();
        proof {
            assert(views_of(configs@) =~= views);
            assert(conditions_view(collective_conditions@) =~= Seq::<Condition>::empty());
        }
        NodeConfigs::Configs { configs, collective_conditions, chained: Chain::default() }
    }
}

impl<O, P0, S0: IntoSystemConfigs<P0, O>, P1, S1: IntoSystemConfigs<P1, O>, P2, S2: IntoSystemConfigs<P2, O>, P3, S3: IntoSystemConfigs<P3, O>, P4, S4: IntoSystemConfigs<P4, O>, P5, S5: IntoSystemConfigs<P5, O>, P6, S6: IntoSystemConfigs<P6, O>, P7, S7: IntoSystemConfigs<P7, O>, P8, S8: IntoSystemConfigs<P8, O>, P9, S9: IntoSystemConfigs<P9, O>, P10, S10: IntoSystemConfigs<P10, O>, P11, S11: IntoSystemConfigs<P11, O>, P12, S12: IntoSystemConfigs<P12, O>, P13, S13: IntoSystemConfigs<P13, O>, P14, S14: IntoSystemConfigs<P14, O>, P15, S15: IntoSystemConfigs<P15, O>, P16, S16: IntoSystemConfigs<P16, O>, P17, S17: IntoSystemConfigs<P17, O>, P18, S18: IntoSystemConfigs<P18, O>, P19, S19: IntoSystemConfigs<P19, O>> IntoSystemConfigs<(SystemConfigTupleMarker, P0, P1, P2, P3, P4, P5, P6, P7, P8, P9, P10, P11, P12, P13, P14, P15, P16, P17, P18, P19, ), O> for (S0, S1, S2, S3, S4, S5, S6, S7, S8, S9, S10, S11, S12, S13, S14, S15, S16, S17, S18, S19, ) {
    open spec fn configs_view(&self) -> NodeConfigsView<BoxedSystem, O> {
        NodeConfigsView::Configs {
            configs: seq![self.0.configs_view(), self.1.configs_view(), self.2.configs_view(), self.3.configs_view(), self.4.configs_view(), self.5.configs_view(), self.6.configs_view(), self.7.configs_view(), self.8.configs_view(), self.9.configs_view(), self.10.configs_view(), self.11.configs_view(), self.12.configs_view(), self.13.configs_view(), self.14.configs_view(), self.15.configs_view(), self.16.configs_view(), self.17.configs_view(), self.18.configs_view(), self.19.configs_view()],
            collective_conditions: Seq::empty(),
            chained: ChainView::Unchained,
        }
    }

    fn into_configs(self) -> (r: SystemConfigs<O>)
        ensures
            r@ is Configs,
            r@->configs.len() == 20,
            r@->configs[0] == self.0.configs_view(),
            r@->configs[1] == self.1.configs_view(),
            r@->configs[2] == self.2.configs_view(),
            r@->configs[3] == self.3.configs_view(),
            r@->configs[4] == self.4.configs_view(),
            r@->configs[5] == self.5.configs_view(),
            r@->configs[6] == self.6.configs_view(),
            r@->configs[7] == self.7.configs_view(),
            r@->configs[8] == self.8.configs_view(),
            r@->configs[9] == self.9.configs_view(),
            r@->configs[10] == self.10.configs_view(),
            r@->configs[11] == self.11.configs_view(),
            r@->configs[12] == self.12.configs_view(),
            r@->configs[13] == self.13.configs_view(),
            r@->configs[14] == self.14.configs_view(),
            r@->configs[15] == self.15.configs_view(),
            r@->configs[16] == self.16.configs_view(),
            r@->configs[17] == self.17.configs_view(),
            r@->configs[18] == self.18.configs_view(),
            r@->configs[19] == self.19.configs_view(),
            r@->collective_conditions.len() == 0,
            r@->chained is Unchained,
    {
        let (s0, s1, s2, s3, s4, s5, s6, s7, s8, s9, s10, s11, s12, s13, s14, s15, s16, s17, s18, s19, ) = self;
        let ghost views = seq![s0.configs_view(), s1.configs_view(), s2.configs_view(), s3.configs_view(), s4.configs_view(), s5.configs_view(), s6.configs_view(), s7.configs_view(), s8.configs_view(), s9.configs_view(), s10.configs_view(), s11.configs_view(), s12.configs_view(), s13.configs_view(), s14.configs_view(), s15.configs_view(), s16.configs_view(), s17.configs_view(), s18.configs_view(), s19.configs_view()];
        let configs = vec![s0.into_configs(), s1.into_configs(), s2.into_configs(), s3.into_configs(), s4.into_configs(), s5.into_configs(), s6.into_configs(), s7.into_configs(), s8.into_configs(), s9.into_configs(), s10.into_configs(), s11.into_configs(), s12.into_configs(), s13.into_configs(), s14.into_configs(), s15.into_configs(), s16.into_configs(), s17.into_configs(), s18.into_configs(), s19.into_configs()];
        let collective_conditions: Vec<BoxedCondition> = Vec::new();
        proof {
            assert(views_of(configs@) =~= views);
            assert(conditions_view(collective_conditions@) =~= Seq::<Condition>::empty());
        }
        NodeConfigs::Configs { configs, collective_conditions, chained: Chain::default() }
    }
}

impl<O, S0: IntoSystemSetConfigs<O>> IntoSystemSetConfigs<O> for (S0, ) {
    open spec fn can_configure(&self) -> bool {
        self.0.can_configure()
    }

    open spec fn set_configs_view(&self) -> NodeConfigsView<InternedSystemSet, O> {
        NodeConfigsView::Configs {
            configs: seq![self.0.set_configs_view()],
            collective_conditions: Seq::empty(),
            chained: ChainView::Unchained,
        }
    }

    fn into_configs(self) -> (r: SystemSetConfigs<O>)
        ensures
            r@ is Configs,
            r@->configs.len() == 1,
            r@->configs[0] == self.0.set_configs_view(),
            r@->collective_conditions.len() == 0,
            r@->chained is Unchained,
    {
        let (s0, ) = self;
        let ghost views = seq![s0.set_configs_view()];
        let configs = vec![s0.into_configs()];
        let collective_conditions: Vec<BoxedCondition> = Vec::new();
        proof {
            assert(views_of(configs@) =~= views);
            assert(conditions_view(collective_conditions@) =~= Seq::<Condition>::empty());
        }
        NodeConfigs::Configs { configs, collective_conditions, chained: Chain::default() }
    }
}

impl<O, S0: IntoSystemSetConfigs<O>, S1: IntoSystemSetConfigs<O>> IntoSystemSetConfigs<O> for (S0, S1, ) {
    open spec fn can_configure(&self) -> bool {
        self.0.can_configure() && self.1.can_configure()
    }

    open spec fn set_configs_view(&self) -> NodeConfigsView<InternedSystemSet, O> {
        NodeConfigsView::Configs {
            configs: seq![self.0.set_configs_view(), self.1.set_configs_view()],
            collective_conditions: Seq::empty(),
            chained: ChainView::Unchained,
        }
    }

    fn into_configs(self) -> (r: SystemSetConfigs<O>)
        ensures
            r@ is Configs,
            r@->configs.len() == 2,
            r@->configs[0] == self.0.set_configs_view(),
            r@->configs[1] == self.1.set_configs_view(),
            r@->collective_conditions.len() == 0,
            r@->chained is Unchained,
    {
        let (s0, s1, ) = self;
        let ghost views = seq![s0.set_configs_view(), s1.set_configs_view()];
        let configs = vec![s0.into_configs(), s1.into_configs()];
        let collective_conditions: Vec<BoxedCondition> = Vec::new();
        proof {
            assert(views_of(configs@) =~= views);
            assert(conditions_view(collective_conditions@) =~= Seq::<Condition>::empty());
        }
        NodeConfigs::Configs { configs, collective_conditions, chained: Chain::default() }
    }
}

impl<O, S0: IntoSystemSetConfigs<O>, S1: IntoSystemSetConfigs<O>, S2: IntoSystemSetConfigs<O>> IntoSystemSetConfigs<O> for (S0, S1, S2, ) {
    open spec fn can_configure(&self) -> bool {
        self.0.can_configure() && self.1.can_configure() && self.2.can_configure()
    }

    open spec fn set_configs_view(&self) -> NodeConfigsView<InternedSystemSet, O> {
        NodeConfigsView::Configs {
            configs: seq![self.0.set_configs_view(), self.1.set_configs_view(), self.2.set_configs_view()],
            collective_conditions: Seq::empty(),
            chained: ChainView::Unchained,
        }
    }

    fn into_configs(self) -> (r: SystemSetConfigs<O>)
        ensures
            r@ is Configs,
            r@->configs.len() == 3,
            r@->configs[0] == self.0.set_configs_view(),
            r@->configs[1] == self.1.set_configs_view(),
            r@->configs[2] == self.2.set_configs_view(),
            r@->collective_conditions.len() == 0,
            r@->chained is Unchained,
    {
        let (s0, s1, s2, ) = self;
        let ghost views = seq![s0.set_configs_view(), s1.set_configs_view(), s2.set_configs_view()];
        let configs = vec![s0.into_configs(), s1.into_configs(), s2.into_configs()];
        let collective_conditions: Vec<BoxedCondition> = Vec::new();
        proof {
            assert(views_of(configs@) =~= views);
            assert(conditions_view(collective_conditions@) =~= Seq::<Condition>::empty());
        }
        NodeConfigs::Configs { configs, collective_conditions, chained: Chain::default() }
    }
}

impl<O, S0: IntoSystemSetConfigs<O>, S1: IntoSystemSetConfigs<O>, S2: IntoSystemSetConfigs<O>, S3: IntoSystemSetConfigs<O>> IntoSystemSetConfigs<O> for (S0, S1, S2, S3, ) {
    open spec fn can_configure(&self) -> bool {
        self.0.can_configure() && self.1.can_configure() && self.2.can_configure() && self.3.can_configure()
    }

    open spec fn set_configs_view(&self) -> NodeConfigsView<InternedSystemSet, O> {
        NodeConfigsView::Configs {
            configs: seq![self.0.set_configs_view(), self.1.set_configs_view(), self.2.set_configs_view(), self.3.set_configs_view()],
            collective_conditions: Seq::empty(),
            chained: ChainView::Unchained,
        }
    }

    fn into_configs(self) -> (r: SystemSetConfigs<O>)
        ensures
            r@ is Configs,
            r@->configs.len() == 4,
            r@->configs[0] == self.0.set_configs_view(),
            r@->configs[1] == self.1.set_configs_view(),
            r@->configs[2] == self.2.set_configs_view(),
            r@->configs[3] == self.3.set_configs_view(),
            r@->collective_conditions.len() == 0,
            r@->chained is Unchained,
    {
        let (s0, s1, s2, s3, ) = self;
        let ghost views = seq![s0.set_configs_view(), s1.set_configs_view(), s2.set_configs_view(), s3.set_configs_view()];
        let configs = vec![s0.into_configs(), s1.into_configs(), s2.into_configs(), s3.into_configs()];
        let collective_conditions: Vec<BoxedCondition> = Vec::new();
        proof {
            assert(views_of(configs@) =~= views);
            assert(conditions_view(collective_conditions@) =~= Seq::<Condition>::empty());
        }
        NodeConfigs::Configs { configs, collective_conditions, chained: Chain::default() }
    }
}

impl<O, S0: IntoSystemSetConfigs<O>, S1: IntoSystemSetConfigs<O>, S2: IntoSystemSetConfigs<O>, S3: IntoSystemSetConfigs<O>, S4: IntoSystemSetConfigs<O>> IntoSystemSetConfigs<O> for (S0, S1, S2, S3, S4, ) {
    open spec fn can_configure(&self) -> bool {
        self.0.can_configure() && self.1.can_configure() && self.2.can_configure() && self.3.can_configure() && self.4.can_configure()
    }

    open spec fn set_configs_view(&self) -> NodeConfigsView<InternedSystemSet, O> {
        NodeConfigsView::Configs {
            configs: seq![self.0.set_configs_view(), self.1.set_configs_view(), self.2.set_configs_view(), self.3.set_configs_view(), self.4.set_configs_view()],
            collective_conditions: Seq::empty(),
            chained: ChainView::Unchained,
        }
    }

    fn into_configs(self) -> (r: SystemSetConfigs<O>)
        ensures
            r@ is Configs,
            r@->configs.len() == 5,
            r@->configs[0] == self.0.set_configs_view(),
            r@->configs[1] == self.1.set_configs_view(),
            r@->configs[2] == self.2.set_configs_view(),
            r@->configs[3] == self.3.set_configs_view(),
            r@->configs[4] == self.4.set_configs_view(),
            r@->collective_conditions.len() == 0,
            r@->chained is Unchained,
    {
        let (s0, s1, s2, s3, s4, ) = self;
        let ghost views = seq![s0.set_configs_view(), s1.set_configs_view(), s2.set_configs_view(), s3.set_configs_view(), s4.set_configs_view()];
        let configs = vec![s0.into_configs(), s1.into_configs(), s2.into_configs(), s3.into_configs(), s4.into_configs()];
        let collective_conditions: Vec<BoxedCondition> = Vec::new();
        proof {
            assert(views_of(configs@) =~= views);
            assert(conditions_view(collective_conditions@) =~= Seq::<Condition>::empty());
        }
        NodeConfigs::Configs { configs, collective_conditions, chained: Chain::default() }
    }
}

impl<O, S0: IntoSystemSetConfigs<O>, S1: IntoSystemSetConfigs<O>, S2: IntoSystemSetConfigs<O>, S3: IntoSystemSetConfigs<O>, S4: IntoSystemSetConfigs<O>, S5: IntoSystemSetConfigs<O>> IntoSystemSetConfigs<O> for (S0, S1, S2, S3, S4, S5, ) {
    open spec fn can_configure(&self) -> bool {
        self.0.can_configure() && self.1.can_configure() && self.2.can_configure() && self.3.can_configure() && self.4.can_configure() && self.5.can_configure()
    }

    open spec fn set_configs_view(&self) -> NodeConfigsView<InternedSystemSet, O> {
        NodeConfigsView::Configs {
            configs: seq![self.0.set_configs_view(), self.1.set_configs_view(), self.2.set_configs_view(), self.3.set_configs_view(), self.4.set_configs_view(), self.5.set_configs_view()],
            collective_conditions: Seq::empty(),
            chained: ChainView::Unchained,
        }
    }

    fn into_configs(self) -> (r: SystemSetConfigs<O>)
        ensures
            r@ is Configs,
            r@->configs.len() == 6,
            r@->configs[0] == self.0.set_configs_view(),
            r@->configs[1] == self.1.set_configs_view(),
            r@->configs[2] == self.2.set_configs_view(),
            r@->configs[3] == self.3.set_configs_view(),
            r@->configs[4] == self.4.set_configs_view(),
            r@->configs[5] == self.5.set_configs_view(),
            r@->collective_conditions.len() == 0,
            r@->chained is Unchained,
    {
        let (s0, s1, s2, s3, s4, s5, ) = self;
        let ghost views = seq![s0.set_configs_view(), s1.set_configs_view(), s2.set_configs_view(), s3.set_configs_view(), s4.set_configs_view(), s5.set_configs_view()];
        let configs = vec![s0.into_configs(), s1.into_configs(), s2.into_configs(), s3.into_configs(), s4.into_configs(), s5.into_configs()];
        let collective_conditions: Vec<BoxedCondition> = Vec::new();
        proof {
            assert(views_of(configs@) =~= views);
            assert(conditions_view(collective_conditions@) =~= Seq::<Condition>::empty());
        }
        NodeConfigs::Configs { configs, collective_conditions, chained: Chain::default() }
    }
}

impl<O, S0: IntoSystemSetConfigs<O>, S1: IntoSystemSetConfigs<O>, S2: IntoSystemSetConfigs<O>, S3: IntoSystemSetConfigs<O>, S4: IntoSystemSetConfigs<O>, S5: IntoSystemSetConfigs<O>, S6: IntoSystemSetConfigs<O>> IntoSystemSetConfigs<O> for (S0, S1, S2, S3, S4, S5, S6, ) {
    open spec fn can_configure(&self) -> bool {
        self.0.can_configure() && self.1.can_configure() && self.2.can_configure() && self.3.can_configure() && self.4.can_configure() && self.5.can_configure() && self.6.can_configure()
    }

    open spec fn set_configs_view(&self) -> NodeConfigsView<InternedSystemSet, O> {
        NodeConfigsView::Configs {
            configs: seq![self.0.set_configs_view(), self.1.set_configs_view(), self.2.set_configs_view(), self.3.set_configs_view(), self.4.set_configs_view(), self.5.set_configs_view(), self.6.set_configs_view()],
            collective_conditions: Seq::empty(),
            chained: ChainView::Unchained,
        }
    }

    fn into_configs(self) -> (r: SystemSetConfigs<O>)
        ensures
            r@ is Configs,
            r@->configs.len() == 7,
            r@->configs[0] == self.0.set_configs_view(),
            r@->configs[1] == self.1.set_configs_view(),
            r@->configs[2] == self.2.set_configs_view(),
            r@->configs[3] == self.3.set_configs_view(),
            r@->configs[4] == self.4.set_configs_view(),
            r@->configs[5] == self.5.set_configs_view(),
            r@->configs[6] == self.6.set_configs_view(),
            r@->collective_conditions.len() == 0,
            r@->chained is Unchained,
    {
        let (s0, s1, s2, s3, s4, s5, s6, ) = self;
        let ghost views = seq![s0.set_configs_view(), s1.set_configs_view(), s2.set_configs_view(), s3.set_configs_view(), s4.set_configs_view(), s5.set_configs_view(), s6.set_configs_view()];
        let configs = vec![s0.into_configs(), s1.into_configs(), s2.into_configs(), s3.into_configs(), s4.into_configs(), s5.into_configs(), s6.into_configs()];
        let collective_conditions: Vec<BoxedCondition> = Vec::new();
        proof {
            assert(views_of(configs@) =~= views);
            assert(conditions_view(collective_conditions@) =~= Seq::<Condition>::empty());
        }
        NodeConfigs::Configs { configs, collective_conditions, chained: Chain::default() }
    }
}

impl<O, S0: IntoSystemSetConfigs<O>, S1: IntoSystemSetConfigs<O>, S2: IntoSystemSetConfigs<O>, S3: IntoSystemSetConfigs<O>, S4: IntoSystemSetConfigs<O>, S5: IntoSystemSetConfigs<O>, S6: IntoSystemSetConfigs<O>, S7: IntoSystemSetConfigs<O>> IntoSystemSetConfigs<O> for (S0, S1, S2, S3, S4, S5, S6, S7, ) {
    open spec fn can_configure(&self) -> bool {
        self.0.can_configure() && self.1.can_configure() && self.2.can_configure() && self.3.can_configure() && self.4.can_configure() && self.5.can_configure() && self.6.can_configure() && self.7.can_configure()
    }

    open spec fn set_configs_view(&self) -> NodeConfigsView<InternedSystemSet, O> {
        NodeConfigsView::Configs {
            configs: seq![self.0.set_configs_view(), self.1.set_configs_view(), self.2.set_configs_view(), self.3.set_configs_view(), self.4.set_configs_view(), self.5.set_configs_view(), self.6.set_configs_view(), self.7.set_configs_view()],
            collective_conditions: Seq::empty(),
            chained: ChainView::Unchained,
        }
    }

    fn into_configs(self) -> (r: SystemSetConfigs<O>)
        ensures
            r@ is Configs,
            r@->configs.len() == 8,
            r@->configs[0] == self.0.set_configs_view(),
            r@->configs[1] == self.1.set_configs_view(),
            r@->configs[2] == self.2.set_configs_view(),
            r@->configs[3] == self.3.set_configs_view(),
            r@->configs[4] == self.4.set_configs_view(),
            r@->configs[5] == self.5.set_configs_view(),
            r@->configs[6] == self.6.set_configs_view(),
            r@->configs[7] == self.7.set_configs_view(),
            r@->collective_conditions.len() == 0,
            r@->chained is Unchained,
    {
        let (s0, s1, s2, s3, s4, s5, s6, s7, ) = self;
        let ghost views = seq![s0.set_configs_view(), s1.set_configs_view(), s2.set_configs_view(), s3.set_configs_view(), s4.set_configs_view(), s5.set_configs_view(), s6.set_configs_view(), s7.set_configs_view()];
        let configs = vec![s0.into_configs(), s1.into_configs(), s2.into_configs(), s3.into_configs(), s4.into_configs(), s5.into_configs(), s6.into_configs(), s7.into_configs()];
        let collective_conditions: Vec<BoxedCondition> = Vec::new();
        proof {
            assert(views_of(configs@) =~= views);
            assert(conditions_view(collective_conditions@) =~= Seq::<Condition>::empty());
        }
        NodeConfigs::Configs { configs, collective_conditions, chained: Chain::default() }
    }
}

impl<O, S0: IntoSystemSetConfigs<O>, S1: IntoSystemSetConfigs<O>, S2: IntoSystemSetConfigs<O>, S3: IntoSystemSetConfigs<O>, S4: IntoSystemSetConfigs<O>, S5: IntoSystemSetConfigs<O>, S6: IntoSystemSetConfigs<O>, S7: IntoSystemSetConfigs<O>, S8: IntoSystemSetConfigs<O>> IntoSystemSetConfigs<O> for (S0, S1, S2, S3, S4, S5, S6, S7, S8, ) {
    open spec fn can_configure(&self) -> bool {
        self.0.can_configure() && self.1.can_configure() && self.2.can_configure() && self.3.can_configure() && self.4.can_configure() && self.5.can_configure() && self.6.can_configure() && self.7.can_configure() && self.8.can_configure()
    }

    open spec fn set_configs_view(&self) -> NodeConfigsView<InternedSystemSet, O> {
        NodeConfigsView::Configs {
            configs: seq![self.0.set_configs_view(), self.1.set_configs_view(), self.2.set_configs_view(), self.3.set_configs_view(), self.4.set_configs_view(), self.5.set_configs_view(), self.6.set_configs_view(), self.7.set_configs_view(), self.8.set_configs_view()],
            collective_conditions: Seq::empty(),
            chained: ChainView::Unchained,
        }
    }

    fn into_configs(self) -> (r: SystemSetConfigs<O>)
        ensures
            r@ is Configs,
            r@->configs.len() == 9,
            r@->configs[0] == self.0.set_configs_view(),
            r@->configs[1] == self.1.set_configs_view(),
            r@->configs[2] == self.2.set_configs_view(),
            r@->configs[3] == self.3.set_configs_view(),
            r@->configs[4] == self.4.set_configs_view(),
            r@->configs[5] == self.5.set_configs_view(),
            r@->configs[6] == self.6.set_configs_view(),
            r@->configs[7] == self.7.set_configs_view(),
            r@->configs[8] == self.8.set_configs_view(),
            r@->collective_conditions.len() == 0,
            r@->chained is Unchained,
    {
        let (s0, s1, s2, s3, s4, s5, s6, s7, s8, ) = self;
        let ghost views = seq![s0.set_configs_view(), s1.set_configs_view(), s2.set_configs_view(), s3.set_configs_view(), s4.set_configs_view(), s5.set_configs_view(), s6.set_configs_view(), s7.set_configs_view(), s8.set_configs_view()];
        let configs = vec![s0.into_configs(), s1.into_configs(), s2.into_configs(), s3.into_configs(), s4.into_configs(), s5.into_configs(), s6.into_configs(), s7.into_configs(), s8.into_configs()];
        let collective_conditions: Vec<BoxedCondition> = Vec::new();
        proof {
            assert(views_of(configs@) =~= views);
            assert(conditions_view(collective_conditions@) =~= Seq::<Condition>::empty());
        }
        NodeConfigs::Configs { configs, collective_conditions, chained: Chain::default() }
    }
}

impl<O, S0: IntoSystemSetConfigs<O>, S1: IntoSystemSetConfigs<O>, S2: IntoSystemSetConfigs<O>, S3: IntoSystemSetConfigs<O>, S4: IntoSystemSetConfigs<O>, S5: IntoSystemSetConfigs<O>, S6: IntoSystemSetConfigs<O>, S7: IntoSystemSetConfigs<O>, S8: IntoSystemSetConfigs<O>, S9: IntoSystemSetConfigs<O>> IntoSystemSetConfigs<O> for (S0, S1, S2, S3, S4, S5, S6, S7, S8, S9, ) {
    open spec fn can_configure(&self) -> bool {
        self.0.can_configure() && self.1.can_configure() && self.2.can_configure() && self.3.can_configure() && self.4.can_configure() && self.5.can_configure() && self.6.can_configure() && self.7.can_configure() && self.8.can_configure() && self.9.can_configure()
    }

    open spec fn set_configs_view(&self) -> NodeConfigsView<InternedSystemSet, O> {
        NodeConfigsView::Configs {
            configs: seq![self.0.set_configs_view(), self.1.set_configs_view(), self.2.set_configs_view(), self.3.set_configs_view(), self.4.set_configs_view(), self.5.set_configs_view(), self.6.set_configs_view(), self.7.set_configs_view(), self.8.set_configs_view(), self.9.set_configs_view()],
            collective_conditions: Seq::empty(),
            chained: ChainView::Unchained,
        }
    }

    fn into_configs(self) -> (r: SystemSetConfigs<O>)
        ensures
            r@ is Configs,
            r@->configs.len() == 10,
            r@->configs[0] == self.0.set_configs_view(),
            r@->configs[1] == self.1.set_configs_view(),
            r@->configs[2] == self.2.set_configs_view(),
            r@->configs[3] == self.3.set_configs_view(),
            r@->configs[4] == self.4.set_configs_view(),
            r@->configs[5] == self.5.set_configs_view(),
            r@->configs[6] == self.6.set_configs_view(),
            r@->configs[7] == self.7.set_configs_view(),
            r@->configs[8] == self.8.set_configs_view(),
            r@->configs[9] == self.9.set_configs_view(),
            r@->collective_conditions.len() == 0,
            r@->chained is Unchained,
    {
        let (s0, s1, s2, s3, s4, s5, s6, s7, s8, s9, ) = self;
        let ghost views = seq![s0.set_configs_view(), s1.set_configs_view(), s2.set_configs_view(), s3.set_configs_view(), s4.set_configs_view(), s5.set_configs_view(), s6.set_configs_view(), s7.set_configs_view(), s8.set_configs_view(), s9.set_configs_view()];
        let configs = vec![s0.into_configs(), s1.into_configs(), s2.into_configs(), s3.into_configs(), s4.into_configs(), s5.into_configs(), s6.into_configs(), s7.into_configs(), s8.into_configs(), s9.into_configs()];
        let collective_conditions: Vec<BoxedCondition> = Vec::new();
        proof {
            assert(views_of(configs@) =~= views);
            assert(conditions_view(collective_conditions@) =~= Seq::<Condition>::empty());
        }
        NodeConfigs::Configs { configs, collective_conditions, chained: Chain::default() }
    }
}

impl<O, S0: IntoSystemSetConfigs<O>, S1: IntoSystemSetConfigs<O>, S2: IntoSystemSetConfigs<O>, S3: IntoSystemSetConfigs<O>, S4: IntoSystemSetConfigs<O>, S5: IntoSystemSetConfigs<O>, S6: IntoSystemSetConfigs<O>, S7: IntoSystemSetConfigs<O>, S8: IntoSystemSetConfigs<O>, S9: IntoSystemSetConfigs<O>, S10: IntoSystemSetConfigs<O>> IntoSystemSetConfigs<O> for (S0, S1, S2, S3, S4, S5, S6, S7, S8, S9, S10, ) {
    open spec fn can_configure(&self) -> bool {
        self.0.can_configure() && self.1.can_configure() && self.2.can_configure() && self.3.can_configure() && self.4.can_configure() && self.5.can_configure() && self.6.can_configure() && self.7.can_configure() && self.8.can_configure() && self.9.can_configure() && self.10.can_configure()
    }

    open spec fn set_configs_view(&self) -> NodeConfigsView<InternedSystemSet, O> {
        NodeConfigsView::Configs {
            configs: seq![self.0.set_configs_view(), self.1.set_configs_view(), self.2.set_configs_view(), self.3.set_configs_view(), self.4.set_configs_view(), self.5.set_configs_view(), self.6.set_configs_view(), self.7.set_configs_view(), self.8.set_configs_view(), self.9.set_configs_view(), self.10.set_configs_view()],
            collective_conditions: Seq::empty(),
            chained: ChainView::Unchained,
        }
    }

    fn into_configs(self) -> (r: SystemSetConfigs<O>)
        ensures
            r@ is Configs,
            r@->configs.len() == 11,
            r@->configs[0] == self.0.set_configs_view(),
            r@->configs[1] == self.1.set_configs_view(),
            r@->configs[2] == self.2.set_configs_view(),
            r@->configs[3] == self.3.set_configs_view(),
            r@->configs[4] == self.4.set_configs_view(),
            r@->configs[5] == self.5.set_configs_view(),
            r@->configs[6] == self.6.set_configs_view(),
            r@->configs[7] == self.7.set_configs_view(),
            r@->configs[8] == self.8.set_configs_view(),
            r@->configs[9] == self.9.set_configs_view(),
            r@->configs[10] == self.10.set_configs_view(),
            r@->collective_conditions.len() == 0,
            r@->chained is Unchained,
    {
        let (s0, s1, s2, s3, s4, s5, s6, s7, s8, s9, s10, ) = self;
        let ghost views = seq![s0.set_configs_view(), s1.set_configs_view(), s2.set_configs_view(), s3.set_configs_view(), s4.set_configs_view(), s5.set_configs_view(), s6.set_configs_view(), s7.set_configs_view(), s8.set_configs_view(), s9.set_configs_view(), s10.set_configs_view()];
        let configs = vec![s0.into_configs(), s1.into_configs(), s2.into_configs(), s3.into_configs(), s4.into_configs(), s5.into_configs(), s6.into_configs(), s7.into_configs(), s8.into_configs(), s9.into_configs(), s10.into_configs()];
        let collective_conditions: Vec<BoxedCondition> = Vec::new();
        proof {
            assert(views_of(configs@) =~= views);
            assert(conditions_view(collective_conditions@) =~= Seq::<Condition>::empty());
        }
        NodeConfigs::Configs { configs, collective_conditions, chained: Chain::default() }
    }
}

impl<O, S0: IntoSystemSetConfigs<O>, S1: IntoSystemSetConfigs<O>, S2: IntoSystemSetConfigs<O>, S3: IntoSystemSetConfigs<O>, S4: IntoSystemSetConfigs<O>, S5: IntoSystemSetConfigs<O>, S6: IntoSystemSetConfigs<O>, S7: IntoSystemSetConfigs<O>, S8: IntoSystemSetConfigs<O>, S9: IntoSystemSetConfigs<O>, S10: IntoSystemSetConfigs<O>, S11: IntoSystemSetConfigs<O>> IntoSystemSetConfigs<O> for (S0, S1, S2, S3, S4, S5, S6, S7, S8, S9, S10, S11, ) {
    open spec fn can_configure(&self) -> bool {
        self.0.can_configure() && self.1.can_configure() && self.2.can_configure() && self.3.can_configure() && self.4.can_configure() && self.5.can_configure() && self.6.can_configure() && self.7.can_configure() && self.8.can_configure() && self.9.can_configure() && self.10.can_configure() && self.11.can_configure()
    }

    open spec fn set_configs_view(&self) -> NodeConfigsView<InternedSystemSet, O> {
        NodeConfigsView::Configs {
            configs: seq![self.0.set_configs_view(), self.1.set_configs_view(), self.2.set_configs_view(), self.3.set_configs_view(), self.4.set_configs_view(), self.5.set_configs_view(), self.6.set_configs_view(), self.7.set_configs_view(), self.8.set_configs_view(), self.9.set_configs_view(), self.10.set_configs_view(), self.11.set_configs_view()],
            collective_conditions: Seq::empty(),
            chained: ChainView::Unchained,
        }
    }

    fn into_configs(self) -> (r: SystemSetConfigs<O>)
        ensures
            r@ is Configs,
            r@->configs.len() == 12,
            r@->configs[0] == self.0.set_configs_view(),
            r@->configs[1] == self.1.set_configs_view(),
            r@->configs[2] == self.2.set_configs_view(),
            r@->configs[3] == self.3.set_configs_view(),
            r@->configs[4] == self.4.set_configs_view(),
            r@->configs[5] == self.5.set_configs_view(),
            r@->configs[6] == self.6.set_configs_view(),
            r@->configs[7] == self.7.set_configs_view(),
            r@->configs[8] == self.8.set_configs_view(),
            r@->configs[9] == self.9.set_configs_view(),
            r@->configs[10] == self.10.set_configs_view(),
            r@->configs[11] == self.11.set_configs_view(),
            r@->collective_conditions.len() == 0,
            r@->chained is Unchained,
    {
        let (s0, s1, s2, s3, s4, s5, s6, s7, s8, s9, s10, s11, ) = self;
        let ghost views = seq![s0.set_configs_view(), s1.set_configs_view(), s2.set_configs_view(), s3.set_configs_view(), s4.set_configs_view(), s5.set_configs_view(), s6.set_configs_view(), s7.set_configs_view(), s8.set_configs_view(), s9.set_configs_view(), s10.set_configs_view(), s11.set_configs_view()];
        let configs = vec![s0.into_configs(), s1.into_configs(), s2.into_configs(), s3.into_configs(), s4.into_configs(), s5.into_configs(), s6.into_configs(), s7.into_configs(), s8.into_configs(), s9.into_configs(), s10.into_configs(), s11.into_configs()];
        let collective_conditions: Vec<BoxedCondition> = Vec::new();
        proof {
            assert(views_of(configs@) =~= views);
            assert(conditions_view(collective_conditions@) =~= Seq::<Condition>::empty());
        }
        NodeConfigs::Configs { configs, collective_conditions, chained: Chain::default() }
    }
}

impl<O, S0: IntoSystemSetConfigs<O>, S1: IntoSystemSetConfigs<O>, S2: IntoSystemSetConfigs<O>, S3: IntoSystemSetConfigs<O>, S4: IntoSystemSetConfigs<O>, S5: IntoSystemSetConfigs<O>, S6: IntoSystemSetConfigs<O>, S7: IntoSystemSetConfigs<O>, S8: IntoSystemSetConfigs<O>, S9: IntoSystemSetConfigs<O>, S10: IntoSystemSetConfigs<O>, S11: IntoSystemSetConfigs<O>, S12: IntoSystemSetConfigs<O>> IntoSystemSetConfigs<O> for (S0, S1, S2, S3, S4, S5, S6, S7, S8, S9, S10, S11, S12, ) {
    open spec fn can_configure(&self) -> bool {
        self.0.can_configure() && self.1.can_configure() && self.2.can_configure() && self.3.can_configure() && self.4.can_configure() && self.5.can_configure() && self.6.can_configure() && self.7.can_configure() && self.8.can_configure() && self.9.can_configure() && self.10.can_configure() && self.11.can_configure() && self.12.can_configure()
    }

    open spec fn set_configs_view(&self) -> NodeConfigsView<InternedSystemSet, O> {
        NodeConfigsView::Configs {
            configs: seq![self.0.set_configs_view(), self.1.set_configs_view(), self.2.set_configs_view(), self.3.set_configs_view(), self.4.set_configs_view(), self.5.set_configs_view(), self.6.set_configs_view(), self.7.set_configs_view(), self.8.set_configs_view(), self.9.set_configs_view(), self.10.set_configs_view(), self.11.set_configs_view(), self.12.set_configs_view()],
            collective_conditions: Seq::empty(),
            chained: ChainView::Unchained,
        }
    }

    fn into_configs(self) -> (r: SystemSetConfigs<O>)
        ensures
            r@ is Configs,
            r@->configs.len() == 13,
            r@->configs[0] == self.0.set_configs_view(),
            r@->configs[1] == self.1.set_configs_view(),
            r@->configs[2] == self.2.set_configs_view(),
            r@->configs[3] == self.3.set_configs_view(),
            r@->configs[4] == self.4.set_configs_view(),
            r@->configs[5] == self.5.set_configs_view(),
            r@->configs[6] == self.6.set_configs_view(),
            r@->configs[7] == self.7.set_configs_view(),
            r@->configs[8] == self.8.set_configs_view(),
            r@->configs[9] == self.9.set_configs_view(),
            r@->configs[10] == self.10.set_configs_view(),
            r@->configs[11] == self.11.set_configs_view(),
            r@->configs[12] == self.12.set_configs_view(),
            r@->collective_conditions.len() == 0,
            r@->chained is Unchained,
    {
        let (s0, s1, s2, s3, s4, s5, s6, s7, s8, s9, s10, s11, s12, ) = self;
        let ghost views = seq![s0.set_configs_view(), s1.set_configs_view(), s2.set_configs_view(), s3.set_configs_view(), s4.set_configs_view(), s5.set_configs_view(), s6.set_configs_view(), s7.set_configs_view(), s8.set_configs_view(), s9.set_configs_view(), s10.set_configs_view(), s11.set_configs_view(), s12.set_configs_view()];
        let configs = vec![s0.into_configs(), s1.into_configs(), s2.into_configs(), s3.into_configs(), s4.into_configs(), s5.into_configs(), s6.into_configs(), s7.into_configs(), s8.into_configs(), s9.into_configs(), s10.into_configs(), s11.into_configs(), s12.into_configs()];
        let collective_conditions: Vec<BoxedCondition> = Vec::new();
        proof {
            assert(views_of(configs@) =~= views);
            assert(conditions_view(collective_conditions@) =~= Seq::<Condition>::empty());
        }
        NodeConfigs::Configs { configs, collective_conditions, chained: Chain::default() }
    }
}

impl<O, S0: IntoSystemSetConfigs<O>, S1: IntoSystemSetConfigs<O>, S2: IntoSystemSetConfigs<O>, S3: IntoSystemSetConfigs<O>, S4: IntoSystemSetConfigs<O>, S5: IntoSystemSetConfigs<O>, S6: IntoSystemSetConfigs<O>, S7: IntoSystemSetConfigs<O>, S8: IntoSystemSetConfigs<O>, S9: IntoSystemSetConfigs<O>, S10: IntoSystemSetConfigs<O>, S11: IntoSystemSetConfigs<O>, S12: IntoSystemSetConfigs<O>, S13: IntoSystemSetConfigs<O>> IntoSystemSetConfigs<O> for (S0, S1, S2, S3, S4, S5, S6, S7, S8, S9, S10, S11, S12, S13, ) {
    open spec fn can_configure(&self) -> bool {
        self.0.can_configure() && self.1.can_configure() && self.2.can_configure() && self.3.can_configure() && self.4.can_configure() && self.5.can_configure() && self.6.can_configure() && self.7.can_configure() && self.8.can_configure() && self.9.can_configure() && self.10.can_configure() && self.11.can_configure() && self.12.can_configure() && self.13.can_configure()
    }

    open spec fn set_configs_view(&self) -> NodeConfigsView<InternedSystemSet, O> {
        NodeConfigsView::Configs {
            configs: seq![self.0.set_configs_view(), self.1.set_configs_view(), self.2.set_configs_view(), self.3.set_configs_view(), self.4.set_configs_view(), self.5.set_configs_view(), self.6.set_configs_view(), self.7.set_configs_view(), self.8.set_configs_view(), self.9.set_configs_view(), self.10.set_configs_view(), self.11.set_configs_view(), self.12.set_configs_view(), self.13.set_configs_view()],
            collective_conditions: Seq::empty(),
            chained: ChainView::Unchained,
        }
    }

    fn into_configs(self) -> (r: SystemSetConfigs<O>)
        ensures
            r@ is Configs,
            r@->configs.len() == 14,
            r@->configs[0] == self.0.set_configs_view(),
            r@->configs[1] == self.1.set_configs_view(),
            r@->configs[2] == self.2.set_configs_view(),
            r@->configs[3] == self.3.set_configs_view(),
            r@->configs[4] == self.4.set_configs_view(),
            r@->configs[5] == self.5.set_configs_view(),
            r@->configs[6] == self.6.set_configs_view(),
            r@->configs[7] == self.7.set_configs_view(),
            r@->configs[8] == self.8.set_configs_view(),
            r@->configs[9] == self.9.set_configs_view(),
            r@->configs[10] == self.10.set_configs_view(),
            r@->configs[11] == self.11.set_configs_view(),
            r@->configs[12] == self.12.set_configs_view(),
            r@->configs[13] == self.13.set_configs_view(),
            r@->collective_conditions.len() == 0,
            r@->chained is Unchained,
    {
        let (s0, s1, s2, s3, s4, s5, s6, s7, s8, s9, s10, s11, s12, s13, ) = self;
        let ghost views = seq![s0.set_configs_view(), s1.set_configs_view(), s2.set_configs_view(), s3.set_configs_view(), s4.set_configs_view(), s5.set_configs_view(), s6.set_configs_view(), s7.set_configs_view(), s8.set_configs_view(), s9.set_configs_view(), s10.set_configs_view(), s11.set_configs_view(), s12.set_configs_view(), s13.set_configs_view()];
        let configs = vec![s0.into_configs(), s1.into_configs(), s2.into_configs(), s3.into_configs(), s4.into_configs(), s5.into_configs(), s6.into_configs(), s7.into_configs(), s8.into_configs(), s9.into_configs(), s10.into_configs(), s11.into_configs(), s12.into_configs(), s13.into_configs()];
        let collective_conditions: Vec<BoxedCondition> = Vec::new();
        proof {
            assert(views_of(configs@) =~= views);
            assert(conditions_view(collective_conditions@) =~= Seq::<Condition>::empty());
        }
        NodeConfigs::Configs { configs, collective_conditions, chained: Chain::default() }
    }
}

impl<O, S0: IntoSystemSetConfigs<O>, S1: IntoSystemSetConfigs<O>, S2: IntoSystemSetConfigs<O>, S3: IntoSystemSetConfigs<O>, S4: IntoSystemSetConfigs<O>, S5: IntoSystemSetConfigs<O>, S6: IntoSystemSetConfigs<O>, S7: IntoSystemSetConfigs<O>, S8: IntoSystemSetConfigs<O>, S9: IntoSystemSetConfigs<O>, S10: IntoSystemSetConfigs<O>, S11: IntoSystemSetConfigs<O>, S12: IntoSystemSetConfigs<O>, S13: IntoSystemSetConfigs<O>, S14: IntoSystemSetConfigs<O>> IntoSystemSetConfigs<O> for (S0, S1, S2, S3, S4, S5, S6, S7, S8, S9, S10, S11, S12, S13, S14, ) {
    open spec fn can_configure(&self) -> bool {
        self.0.can_configure() && self.1.can_configure() && self.2.can_configure() && self.3.can_configure() && self.4.can_configure() && self.5.can_configure() && self.6.can_configure() && self.7.can_configure() && self.8.can_configure() && self.9.can_configure() && self.10.can_configure() && self.11.can_configure() && self.12.can_configure() && self.13.can_configure() && self.14.can_configure()
    }

    open spec fn set_configs_view(&self) -> NodeConfigsView<InternedSystemSet, O> {
        NodeConfigsView::Configs {
            configs: seq![self.0.set_configs_view(), self.1.set_configs_view(), self.2.set_configs_view(), self.3.set_configs_view(), self.4.set_configs_view(), self.5.set_configs_view(), self.6.set_configs_view(), self.7.set_configs_view(), self.8.set_configs_view(), self.9.set_configs_view(), self.10.set_configs_view(), self.11.set_configs_view(), self.12.set_configs_view(), self.13.set_configs_view(), self.14.set_configs_view()],
            collective_conditions: Seq::empty(),
            chained: ChainView::Unchained,
        }
    }

    fn into_configs(self) -> (r: SystemSetConfigs<O>)
        ensures
            r@ is Configs,
            r@->configs.len() == 15,
            r@->configs[0] == self.0.set_configs_view(),
            r@->configs[1] == self.1.set_configs_view(),
            r@->configs[2] == self.2.set_configs_view(),
            r@->configs[3] == self.3.set_configs_view(),
            r@->configs[4] == self.4.set_configs_view(),
            r@->configs[5] == self.5.set_configs_view(),
            r@->configs[6] == self.6.set_configs_view(),
            r@->configs[7] == self.7.set_configs_view(),
            r@->configs[8] == self.8.set_configs_view(),
            r@->configs[9] == self.9.set_configs_view(),
            r@->configs[10] == self.10.set_configs_view(),
            r@->configs[11] == self.11.set_configs_view(),
            r@->configs[12] == self.12.set_configs_view(),
            r@->configs[13] == self.13.set_configs_view(),
            r@->configs[14] == self.14.set_configs_view(),
            r@->collective_conditions.len() == 0,
            r@->chained is Unchained,
    {
        let (s0, s1, s2, s3, s4, s5, s6, s7, s8, s9, s10, s11, s12, s13, s14, ) = self;
        let ghost views = seq![s0.set_configs_view(), s1.set_configs_view(), s2.set_configs_view(), s3.set_configs_view(), s4.set_configs_view(), s5.set_configs_view(), s6.set_configs_view(), s7.set_configs_view(), s8.set_configs_view(), s9.set_configs_view(), s10.set_configs_view(), s11.set_configs_view(), s12.set_configs_view(), s13.set_configs_view(), s14.set_configs_view()];
        let configs = vec![s0.into_configs(), s1.into_configs(), s2.into_configs(), s3.into_configs(), s4.into_configs(), s5.into_configs(), s6.into_configs(), s7.into_configs(), s8.into_configs(), s9.into_configs(), s10.into_configs(), s11.into_configs(), s12.into_configs(), s13.into_configs(), s14.into_configs()];
        let collective_conditions: Vec<BoxedCondition> = Vec::new();
        proof {
            assert(views_of(configs@) =~= views);
            assert(conditions_view(collective_conditions@) =~= Seq::<Condition>::empty());
        }
        NodeConfigs::Configs { configs, collective_conditions, chained: Chain::default() }
    }
}

impl<O, S0: IntoSystemSetConfigs<O>, S1: IntoSystemSetConfigs<O>, S2: IntoSystemSetConfigs<O>, S3: IntoSystemSetConfigs<O>, S4: IntoSystemSetConfigs<O>, S5: IntoSystemSetConfigs<O>, S6: IntoSystemSetConfigs<O>, S7: IntoSystemSetConfigs<O>, S8: IntoSystemSetConfigs<O>, S9: IntoSystemSetConfigs<O>, S10: IntoSystemSetConfigs<O>, S11: IntoSystemSetConfigs<O>, S12: IntoSystemSetConfigs<O>, S13: IntoSystemSetConfigs<O>, S14: IntoSystemSetConfigs<O>, S15: IntoSystemSetConfigs<O>> IntoSystemSetConfigs<O> for (S0, S1, S2, S3, S4, S5, S6, S7, S8, S9, S10, S11, S12, S13, S14, S15, ) {
    open spec fn can_configure(&self) -> bool {
        self.0.can_configure() && self.1.can_configure() && self.2.can_configure() && self.3.can_configure() && self.4.can_configure() && self.5.can_configure() && self.6.can_configure() && self.7.can_configure() && self.8.can_configure() && self.9.can_configure() && self.10.can_configure() && self.11.can_configure() && self.12.can_configure() && self.13.can_configure() && self.14.can_configure() && self.15.can_configure()
    }

    open spec fn set_configs_view(&self) -> NodeConfigsView<InternedSystemSet, O> {
        NodeConfigsView::Configs {
            configs: seq![self.0.set_configs_view(), self.1.set_configs_view(), self.2.set_configs_view(), self.3.set_configs_view(), self.4.set_configs_view(), self.5.set_configs_view(), self.6.set_configs_view(), self.7.set_configs_view(), self.8.set_configs_view(), self.9.set_configs_view(), self.10.set_configs_view(), self.11.set_configs_view(), self.12.set_configs_view(), self.13.set_configs_view(), self.14.set_configs_view(), self.15.set_configs_view()],
            collective_conditions: Seq::empty(),
            chained: ChainView::Unchained,
        }
    }

    fn into_configs(self) -> (r: SystemSetConfigs<O>)
        ensures
            r@ is Configs,
            r@->configs.len() == 16,
            r@->configs[0] == self.0.set_configs_view(),
            r@->configs[1] == self.1.set_configs_view(),
            r@->configs[2] == self.2.set_configs_view(),
            r@->configs[3] == self.3.set_configs_view(),
            r@->configs[4] == self.4.set_configs_view(),
            r@->configs[5] == self.5.set_configs_view(),
            r@->configs[6] == self.6.set_configs_view(),
            r@->configs[7] == self.7.set_configs_view(),
            r@->configs[8] == self.8.set_configs_view(),
            r@->configs[9] == self.9.set_configs_view(),
            r@->configs[10] == self.10.set_configs_view(),
            r@->configs[11] == self.11.set_configs_view(),
            r@->configs[12] == self.12.set_configs_view(),
            r@->configs[13] == self.13.set_configs_view(),
            r@->configs[14] == self.14.set_configs_view(),
            r@->configs[15] == self.15.set_configs_view(),
            r@->collective_conditions.len() == 0,
            r@->chained is Unchained,
    {
        let (s0, s1, s2, s3, s4, s5, s6, s7, s8, s9, s10, s11, s12, s13, s14, s15, ) = self;
        let ghost views = seq![s0.set_configs_view(), s1.set_configs_view(), s2.set_configs_view(), s3.set_configs_view(), s4.set_configs_view(), s5.set_configs_view(), s6.set_configs_view(), s7.set_configs_view(), s8.set_configs_view(), s9.set_configs_view(), s10.set_configs_view(), s11.set_configs_view(), s12.set_configs_view(), s13.set_configs_view(), s14.set_configs_view(), s15.set_configs_view()];
        let configs = vec![s0.into_configs(), s1.into_configs(), s2.into_configs(), s3.into_configs(), s4.into_configs(), s5.into_configs(), s6.into_configs(), s7.into_configs(), s8.into_configs(), s9.into_configs(), s10.into_configs(), s11.into_configs(), s12.into_configs(), s13.into_configs(), s14.into_configs(), s15.into_configs()];
        let collective_conditions: Vec<BoxedCondition> = Vec::new();
        proof {
            assert(views_of(configs@) =~= views);
            assert(conditions_view(collective_conditions@) =~= Seq::<Condition>::empty());
        }
        NodeConfigs::Configs { configs, collective_conditions, chained: Chain::default() }
    }
}

impl<O, S0: IntoSystemSetConfigs<O>, S1: IntoSystemSetConfigs<O>, S2: IntoSystemSetConfigs<O>, S3: IntoSystemSetConfigs<O>, S4: IntoSystemSetConfigs<O>, S5: IntoSystemSetConfigs<O>, S6: IntoSystemSetConfigs<O>, S7: IntoSystemSetConfigs<O>, S8: IntoSystemSetConfigs<O>, S9: IntoSystemSetConfigs<O>, S10: IntoSystemSetConfigs<O>, S11: IntoSystemSetConfigs<O>, S12: IntoSystemSetConfigs<O>, S13: IntoSystemSetConfigs<O>, S14: IntoSystemSetConfigs<O>, S15: IntoSystemSetConfigs<O>, S16: IntoSystemSetConfigs<O>> IntoSystemSetConfigs<O> for (S0, S1, S2, S3, S4, S5, S6, S7, S8, S9, S10, S11, S12, S13, S14, S15, S16, ) {
    open spec fn can_configure(&self) -> bool {
        self.0.can_configure() && self.1.can_configure() && self.2.can_configure() && self.3.can_configure() && self.4.can_configure() && self.5.can_configure() && self.6.can_configure() && self.7.can_configure() && self.8.can_configure() && self.9.can_configure() && self.10.can_configure() && self.11.can_configure() && self.12.can_configure() && self.13.can_configure() && self.14.can_configure() && self.15.can_configure() && self.16.can_configure()
    }

    open spec fn set_configs_view(&self) -> NodeConfigsView<InternedSystemSet, O> {
        NodeConfigsView::Configs {
            configs: seq![self.0.set_configs_view(), self.1.set_configs_view(), self.2.set_configs_view(), self.3.set_configs_view(), self.4.set_configs_view(), self.5.set_configs_view(), self.6.set_configs_view(), self.7.set_configs_view(), self.8.set_configs_view(), self.9.set_configs_view(), self.10.set_configs_view(), self.11.set_configs_view(), self.12.set_configs_view(), self.13.set_configs_view(), self.14.set_configs_view(), self.15.set_configs_view(), self.16.set_configs_view()],
            collective_conditions: Seq::empty(),
            chained: ChainView::Unchained,
        }
    }

    fn into_configs(self) -> (r: SystemSetConfigs<O>)
        ensures
            r@ is Configs,
            r@->configs.len() == 17,
            r@->configs[0] == self.0.set_configs_view(),
            r@->configs[1] == self.1.set_configs_view(),
            r@->configs[2] == self.2.set_configs_view(),
            r@->configs[3] == self.3.set_configs_view(),
            r@->configs[4] == self.4.set_configs_view(),
            r@->configs[5] == self.5.set_configs_view(),
            r@->configs[6] == self.6.set_configs_view(),
            r@->configs[7] == self.7.set_configs_view(),
            r@->configs[8] == self.8.set_configs_view(),
            r@->configs[9] == self.9.set_configs_view(),
            r@->configs[10] == self.10.set_configs_view(),
            r@->configs[11] == self.11.set_configs_view(),
            r@->configs[12] == self.12.set_configs_view(),
            r@->configs[13] == self.13.set_configs_view(),
            r@->configs[14] == self.14.set_configs_view(),
            r@->configs[15] == self.15.set_configs_view(),
            r@->configs[16] == self.16.set_configs_view(),
            r@->collective_conditions.len() == 0,
            r@->chained is Unchained,
    {
        let (s0, s1, s2, s3, s4, s5, s6, s7, s8, s9, s10, s11, s12, s13, s14, s15, s16, ) = self;
        let ghost views = seq![s0.set_configs_view(), s1.set_configs_view(), s2.set_configs_view(), s3.set_configs_view(), s4.set_configs_view(), s5.set_configs_view(), s6.set_configs_view(), s7.set_configs_view(), s8.set_configs_view(), s9.set_configs_view(), s10.set_configs_view(), s11.set_configs_view(), s12.set_configs_view(), s13.set_configs_view(), s14.set_configs_view(), s15.set_configs_view(), s16.set_configs_view()];
        let configs = vec![s0.into_configs(), s1.into_configs(), s2.into_configs(), s3.into_configs(), s4.into_configs(), s5.into_configs(), s6.into_configs(), s7.into_configs(), s8.into_configs(), s9.into_configs(), s10.into_configs(), s11.into_configs(), s12.into_configs(), s13.into_configs(), s14.into_configs(), s15.into_configs(), s16.into_configs()];
        let collective_conditions: Vec<BoxedCondition> = Vec::new();
        proof {
            assert(views_of(configs@) =~= views);
            assert(conditions_view(collective_conditions@) =~= Seq::<Condition>::empty());
        }
        NodeConfigs::Configs { configs, collective_conditions, chained: Chain::default() }
    }
}

impl<O, S0: IntoSystemSetConfigs<O>, S1: IntoSystemSetConfigs<O>, S2: IntoSystemSetConfigs<O>, S3: IntoSystemSetConfigs<O>, S4: IntoSystemSetConfigs<O>, S5: IntoSystemSetConfigs<O>, S6: IntoSystemSetConfigs<O>, S7: IntoSystemSetConfigs<O>, S8: IntoSystemSetConfigs<O>, S9: IntoSystemSetConfigs<O>, S10: IntoSystemSetConfigs<O>, S11: IntoSystemSetConfigs<O>, S12: IntoSystemSetConfigs<O>, S13: IntoSystemSetConfigs<O>, S14: IntoSystemSetConfigs<O>, S15: IntoSystemSetConfigs<O>, S16: IntoSystemSetConfigs<O>, S17: IntoSystemSetConfigs<O>> IntoSystemSetConfigs<O> for (S0, S1, S2, S3, S4, S5, S6, S7, S8, S9, S10, S11, S12, S13, S14, S15, S16, S17, ) {
    open spec fn can_configure(&self) -> bool {
        self.0.can_configure() && self.1.can_configure() && self.2.can_configure() && self.3.can_configure() && self.4.can_configure() && self.5.can_configure() && self.6.can_configure() && self.7.can_configure() && self.8.can_configure() && self.9.can_configure() && self.10.can_configure() && self.11.can_configure() && self.12.can_configure() && self.13.can_configure() && self.14.can_configure() && self.15.can_configure() && self.16.can_configure() && self.17.can_configure()
    }

    open spec fn set_configs_view(&self) -> NodeConfigsView<InternedSystemSet, O> {
        NodeConfigsView::Configs {
            configs: seq![self.0.set_configs_view(), self.1.set_configs_view(), self.2.set_configs_view(), self.3.set_configs_view(), self.4.set_configs_view(), self.5.set_configs_view(), self.6.set_configs_view(), self.7.set_configs_view(), self.8.set_configs_view(), self.9.set_configs_view(), self.10.set_configs_view(), self.11.set_configs_view(), self.12.set_configs_view(), self.13.set_configs_view(), self.14.set_configs_view(), self.15.set_configs_view(), self.16.set_configs_view(), self.17.set_configs_view()],
            collective_conditions: Seq::empty(),
            chained: ChainView::Unchained,
        }
    }

    fn into_configs(self) -> (r: SystemSetConfigs<O>)
        ensures
            r@ is Configs,
            r@->configs.len() == 18,
            r@->configs[0] == self.0.set_configs_view(),
            r@->configs[1] == self.1.set_configs_view(),
            r@->configs[2] == self.2.set_configs_view(),
            r@->configs[3] == self.3.set_configs_view(),
            r@->configs[4] == self.4.set_configs_view(),
            r@->configs[5] == self.5.set_configs_view(),
            r@->configs[6] == self.6.set_configs_view(),
            r@->configs[7] == self.7.set_configs_view(),
            r@->configs[8] == self.8.set_configs_view(),
            r@->configs[9] == self.9.set_configs_view(),
            r@->configs[10] == self.10.set_configs_view(),
            r@->configs[11] == self.11.set_configs_view(),
            r@->configs[12] == self.12.set_configs_view(),
            r@->configs[13] == self.13.set_configs_view(),
            r@->configs[14] == self.14.set_configs_view(),
            r@->configs[15] == self.15.set_configs_view(),
            r@->configs[16] == self.16.set_configs_view(),
            r@->configs[17] == self.17.set_configs_view(),
            r@->collective_conditions.len() == 0,
            r@->chained is Unchained,
    {
        let (s0, s1, s2, s3, s4, s5, s6, s7, s8, s9, s10, s11, s12, s13, s14, s15, s16, s17, ) = self;
        let ghost views = seq![s0.set_configs_view(), s1.set_configs_view(), s2.set_configs_view(), s3.set_configs_view(), s4.set_configs_view(), s5.set_configs_view(), s6.set_configs_view(), s7.set_configs_view(), s8.set_configs_view(), s9.set_configs_view(), s10.set_configs_view(), s11.set_configs_view(), s12.set_configs_view(), s13.set_configs_view(), s14.set_configs_view(), s15.set_configs_view(), s16.set_configs_view(), s17.set_configs_view()];
        let configs = vec![s0.into_configs(), s1.into_configs(), s2.into_configs(), s3.into_configs(), s4.into_configs(), s5.into_configs(), s6.into_configs(), s7.into_configs(), s8.into_configs(), s9.into_configs(), s10.into_configs(), s11.into_configs(), s12.into_configs(), s13.into_configs(), s14.into_configs(), s15.into_configs(), s16.into_configs(), s17.into_configs()];
        let collective_conditions: Vec<BoxedCondition> = Vec::new();
        proof {
            assert(views_of(configs@) =~= views);
            assert(conditions_view(collective_conditions@) =~= Seq::<Condition>::empty());
        }
        NodeConfigs::Configs { configs, collective_conditions, chained: Chain::default() }
    }
}

impl<O, S0: IntoSystemSetConfigs<O>, S1: IntoSystemSetConfigs<O>, S2: IntoSystemSetConfigs<O>, S3: IntoSystemSetConfigs<O>, S4: IntoSystemSetConfigs<O>, S5: IntoSystemSetConfigs<O>, S6: IntoSystemSetConfigs<O>, S7: IntoSystemSetConfigs<O>, S8: IntoSystemSetConfigs<O>, S9: IntoSystemSetConfigs<O>, S10: IntoSystemSetConfigs<O>, S11: IntoSystemSetConfigs<O>, S12: IntoSystemSetConfigs<O>, S13: IntoSystemSetConfigs<O>, S14: IntoSystemSetConfigs<O>, S15: IntoSystemSetConfigs<O>, S16: IntoSystemSetConfigs<O>, S17: IntoSystemSetConfigs<O>, S18: IntoSystemSetConfigs<O>> IntoSystemSetConfigs<O> for (S0, S1, S2, S3, S4, S5, S6, S7, S8, S9, S10, S11, S12, S13, S14, S15, S16, S17, S18, ) {
    open spec fn can_configure(&self) -> bool {
        self.0.can_configure() && self.1.can_configure() && self.2.can_configure() && self.3.can_configure() && self.4.can_configure() && self.5.can_configure() && self.6.can_configure() && self.7.can_configure() && self.8.can_configure() && self.9.can_configure() && self.10.can_configure() && self.11.can_configure() && self.12.can_configure() && self.13.can_configure() && self.14.can_configure() && self.15.can_configure() && self.16.can_configure() && self.17.can_configure() && self.18.can_configure()
    }

    open spec fn set_configs_view(&self) -> NodeConfigsView<InternedSystemSet, O> {
        NodeConfigsView::Configs {
            configs: seq![self.0.set_configs_view(), self.1.set_configs_view(), self.2.set_configs_view(), self.3.set_configs_view(), self.4.set_configs_view(), self.5.set_configs_view(), self.6.set_configs_view(), self.7.set_configs_view(), self.8.set_configs_view(), self.9.set_configs_view(), self.10.set_configs_view(), self.11.set_configs_view(), self.12.set_configs_view(), self.13.set_configs_view(), self.14.set_configs_view(), self.15.set_configs_view(), self.16.set_configs_view(), self.17.set_configs_view(), self.18.set_configs_view()],
            collective_conditions: Seq::empty(),
            chained: ChainView::Unchained,
        }
    }

    fn into_configs(self) -> (r: SystemSetConfigs<O>)
        ensures
            r@ is Configs,
            r@->configs.len() == 19,
            r@->configs[0] == self.0.set_configs_view(),
            r@->configs[1] == self.1.set_configs_view(),
            r@->configs[2] == self.2.set_configs_view(),
            r@->configs[3] == self.3.set_configs_view(),
            r@->configs[4] == self.4.set_configs_view(),
            r@->configs[5] == self.5.set_configs_view(),
            r@->configs[6] == self.6.set_configs_view(),
            r@->configs[7] == self.7.set_configs_view(),
            r@->configs[8] == self.8.set_configs_view(),
            r@->configs[9] == self.9.set_configs_view(),
            r@->configs[10] == self.10.set_configs_view(),
            r@->configs[11] == self.11.set_configs_view(),
            r@->configs[12] == self.12.set_configs_view(),
            r@->configs[13] == self.13.set_configs_view(),
            r@->configs[14] == self.14.set_configs_view(),
            r@->configs[15] == self.15.set_configs_view(),
            r@->configs[16] == self.16.set_configs_view(),
            r@->configs[17] == self.17.set_configs_view(),
            r@->configs[18] == self.18.set_configs_view(),
            r@->collective_conditions.len() == 0,
            r@->chained is Unchained,
    {
        let (s0, s1, s2, s3, s4, s5, s6, s7, s8, s9, s10, s11, s12, s13, s14, s15, s16, s17, s18, ) = self;
        let ghost views = seq![s0.set_configs_view(), s1.set_configs_view(), s2.set_configs_view(), s3.set_configs_view(), s4.set_configs_view(), s5.set_configs_view(), s6.set_configs_view(), s7.set_configs_view(), s8.set_configs_view(), s9.set_configs_view(), s10.set_configs_view(), s11.set_configs_view(), s12.set_configs_view(), s13.set_configs_view(), s14.set_configs_view(), s15.set_configs_view(), s16.set_configs_view(), s17.set_configs_view(), s18.set_configs_view()];
        let configs = vec![s0.into_configs(), s1.into_configs(), s2.into_configs(), s3.into_configs(), s4.into_configs(), s5.into_configs(), s6.into_configs(), s7.into_configs(), s8.into_configs(), s9.into_configs(), s10.into_configs(), s11.into_configs(), s12.into_configs(), s13.into_configs(), s14.into_configs(), s15.into_configs(), s16.into_configs(), s17.into_configs(), s18.into_configs()];
        let collective_conditions: Vec<BoxedCondition> = Vec::new();
        proof {
            assert(views_of(configs@) =~= views);
            assert(conditions_view(collective_conditions@) =~= Seq::<Condition>::empty());
        }
        NodeConfigs::Configs { configs, collective_conditions, chained: Chain::default() }
    }
}

impl<O, S0: IntoSystemSetConfigs<O>, S1: IntoSystemSetConfigs<O>, S2: IntoSystemSetConfigs<O>, S3: IntoSystemSetConfigs<O>, S4: IntoSystemSetConfigs<O>, S5: IntoSystemSetConfigs<O>, S6: IntoSystemSetConfigs<O>, S7: IntoSystemSetConfigs<O>, S8: IntoSystemSetConfigs<O>, S9: IntoSystemSetConfigs<O>, S10: IntoSystemSetConfigs<O>, S11: IntoSystemSetConfigs<O>, S12: IntoSystemSetConfigs<O>, S13: IntoSystemSetConfigs<O>, S14: IntoSystemSetConfigs<O>, S15: IntoSystemSetConfigs<O>, S16: IntoSystemSetConfigs<O>, S17: IntoSystemSetConfigs<O>, S18: IntoSystemSetConfigs<O>, S19: IntoSystemSetConfigs<O>> IntoSystemSetConfigs<O> for (S0, S1, S2, S3, S4, S5, S6, S7, S8, S9, S10, S11, S12, S13, S14, S15, S16, S17, S18, S19, ) {
    open spec fn can_configure(&self) -> bool {
        self.0.can_configure() && self.1.can_configure() && self.2.can_configure() && self.3.can_configure() && self.4.can_configure() && self.5.can_configure() && self.6.can_configure() && self.7.can_configure() && self.8.can_configure() && self.9.can_configure() && self.10.can_configure() && self.11.can_configure() && self.12.can_configure() && self.13.can_configure() && self.14.can_configure() && self.15.can_configure() && self.16.can_configure() && self.17.can_configure() && self.18.can_configure() && self.19.can_configure()
    }

    open spec fn set_configs_view(&self) -> NodeConfigsView<InternedSystemSet, O> {
        NodeConfigsView::Configs {
            configs: seq![self.0.set_configs_view(), self.1.set_configs_view(), self.2.set_configs_view(), self.3.set_configs_view(), self.4.set_configs_view(), self.5.set_configs_view(), self.6.set_configs_view(), self.7.set_configs_view(), self.8.set_configs_view(), self.9.set_configs_view(), self.10.set_configs_view(), self.11.set_configs_view(), self.12.set_configs_view(), self.13.set_configs_view(), self.14.set_configs_view(), self.15.set_configs_view(), self.16.set_configs_view(), self.17.set_configs_view(), self.18.set_configs_view(), self.19.set_configs_view()],
            collective_conditions: Seq::empty(),
            chained: ChainView::Unchained,
        }
    }

    fn into_configs(self) -> (r: SystemSetConfigs<O>)
        ensures
            r@ is Configs,
            r@->configs.len() == 20,
            r@->configs[0] == self.0.set_configs_view(),
            r@->configs[1] == self.1.set_configs_view(),
            r@->configs[2] == self.2.set_configs_view(),
            r@->configs[3] == self.3.set_configs_view(),
            r@->configs[4] == self.4.set_configs_view(),
            r@->configs[5] == self.5.set_configs_view(),
            r@->configs[6] == self.6.set_configs_view(),
            r@->configs[7] == self.7.set_configs_view(),
            r@->configs[8] == self.8.set_configs_view(),
            r@->configs[9] == self.9.set_configs_view(),
            r@->configs[10] == self.10.set_configs_view(),
            r@->configs[11] == self.11.set_configs_view(),
            r@->configs[12] == self.12.set_configs_view(),
            r@->configs[13] == self.13.set_configs_view(),
            r@->configs[14] == self.14.set_configs_view(),
            r@->configs[15] == self.15.set_configs_view(),
            r@->configs[16] == self.16.set_configs_view(),
            r@->configs[17] == self.17.set_configs_view(),
            r@->configs[18] == self.18.set_configs_view(),
            r@->configs[19] == self.19.set_configs_view(),
            r@->collective_conditions.len() == 0,
            r@->chained is Unchained,
    {
        let (s0, s1, s2, s3, s4, s5, s6, s7, s8, s9, s10, s11, s12, s13, s14, s15, s16, s17, s18, s19, ) = self;
        let ghost views = seq![s0.set_configs_view(), s1.set_configs_view(), s2.set_configs_view(), s3.set_configs_view(), s4.set_configs_view(), s5.set_configs_view(), s6.set_configs_view(), s7.set_configs_view(), s8.set_configs_view(), s9.set_configs_view(), s10.set_configs_view(), s11.set_configs_view(), s12.set_configs_view(), s13.set_configs_view(), s14.set_configs_view(), s15.set_configs_view(), s16.set_configs_view(), s17.set_configs_view(), s18.set_configs_view(), s19.set_configs_view()];
        let configs = vec![s0.into_configs(), s1.into_configs(), s2.into_configs(), s3.into_configs(), s4.into_configs(), s5.into_configs(), s6.into_configs(), s7.into_configs(), s8.into_configs(), s9.into_configs(), s10.into_configs(), s11.into_configs(), s12.into_configs(), s13.into_configs(), s14.into_configs(), s15.into_configs(), s16.into_configs(), s17.into_configs(), s18.into_configs(), s19.into_configs()];
        let collective_conditions: Vec<BoxedCondition> = Vec::new();
        proof {
            assert(views_of(configs@) =~= views);
            assert(conditions_view(collective_conditions@) =~= Seq::<Condition>::empty());
        }
        NodeConfigs::Configs { configs, collective_conditions, chained: Chain::default() }
    }
}

/// A tuple of 1 system configuration(s) converts into a collection whose elements
/// are the components' configurations in component order, with no collective
/// conditions and no chaining.
pub proof fn law_system_tuple_1_in_order<O, P0, S0: IntoSystemConfigs<P0, O>>(t: (S0, ))
    ensures
        IntoSystemConfigs::<(SystemConfigTupleMarker, P0, ), O>::configs_view(&t) is Configs,
        IntoSystemConfigs::<(SystemConfigTupleMarker, P0, ), O>::configs_view(&t)->configs.len() == 1,
        IntoSystemConfigs::<(SystemConfigTupleMarker, P0, ), O>::configs_view(&t)->configs[0] == t.0.configs_view(),
        IntoSystemConfigs::<(SystemConfigTupleMarker, P0, ), O>::configs_view(&t)->collective_conditions.len() == 0,
        IntoSystemConfigs::<(SystemConfigTupleMarker, P0, ), O>::configs_view(&t)->chained is Unchained,
{
}

/// A tuple of 2 system configuration(s) converts into a collection whose elements
/// are the components' configurations in component order, with no collective
/// conditions and no chaining.
pub proof fn law_system_tuple_2_in_order<O, P0, S0: IntoSystemConfigs<P0, O>, P1, S1: IntoSystemConfigs<P1, O>>(t: (S0, S1, ))
    ensures
        IntoSystemConfigs::<(SystemConfigTupleMarker, P0, P1, ), O>::configs_view(&t) is Configs,
        IntoSystemConfigs::<(SystemConfigTupleMarker, P0, P1, ), O>::configs_view(&t)->configs.len() == 2,
        IntoSystemConfigs::<(SystemConfigTupleMarker, P0, P1, ), O>::configs_view(&t)->configs[0] == t.0.configs_view(),
        IntoSystemConfigs::<(SystemConfigTupleMarker, P0, P1, ), O>::configs_view(&t)->configs[1] == t.1.configs_view(),
        IntoSystemConfigs::<(SystemConfigTupleMarker, P0, P1, ), O>::configs_view(&t)->collective_conditions.len() == 0,
        IntoSystemConfigs::<(SystemConfigTupleMarker, P0, P1, ), O>::configs_view(&t)->chained is Unchained,
{
}

/// A tuple of 3 system configuration(s) converts into a collection whose elements
/// are the components' configurations in component order, with no collective
/// conditions and no chaining.
pub proof fn law_system_tuple_3_in_order<O, P0, S0: IntoSystemConfigs<P0, O>, P1, S1: IntoSystemConfigs<P1, O>, P2, S2: IntoSystemConfigs<P2, O>>(t: (S0, S1, S2, ))
    ensures
        IntoSystemConfigs::<(SystemConfigTupleMarker, P0, P1, P2, ), O>::configs_view(&t) is Configs,
        IntoSystemConfigs::<(SystemConfigTupleMarker, P0, P1, P2, ), O>::configs_view(&t)->configs.len() == 3,
        IntoSystemConfigs::<(SystemConfigTupleMarker, P0, P1, P2, ), O>::configs_view(&t)->configs[0] == t.0.configs_view(),
        IntoSystemConfigs::<(SystemConfigTupleMarker, P0, P1, P2, ), O>::configs_view(&t)->configs[1] == t.1.configs_view(),
        IntoSystemConfigs::<(SystemConfigTupleMarker, P0, P1, P2, ), O>::configs_view(&t)->configs[2] == t.2.configs_view(),
        IntoSystemConfigs::<(SystemConfigTupleMarker, P0, P1, P2, ), O>::configs_view(&t)->collective_conditions.len() == 0,
        IntoSystemConfigs::<(SystemConfigTupleMarker, P0, P1, P2, ), O>::configs_view(&t)->chained is Unchained,
{
}

/// A tuple of 4 system configuration(s) converts into a collection whose elements
/// are the components' configurations in component order, with no collective
/// conditions and no chaining.
pub proof fn law_system_tuple_4_in_order<O, P0, S0: IntoSystemConfigs<P0, O>, P1, S1: IntoSystemConfigs<P1, O>, P2, S2: IntoSystemConfigs<P2, O>, P3, S3: IntoSystemConfigs<P3, O>>(t: (S0, S1, S2, S3, ))
    ensures
        IntoSystemConfigs::<(SystemConfigTupleMarker, P0, P1, P2, P3, ), O>::configs_view(&t) is Configs,
        IntoSystemConfigs::<(SystemConfigTupleMarker, P0, P1, P2, P3, ), O>::configs_view(&t)->configs.len() == 4,
        IntoSystemConfigs::<(SystemConfigTupleMarker, P0, P1, P2, P3, ), O>::configs_view(&t)->configs[0] == t.0.configs_view(),
        IntoSystemConfigs::<(SystemConfigTupleMarker, P0, P1, P2, P3, ), O>::configs_view(&t)->configs[1] == t.1.configs_view(),
        IntoSystemConfigs::<(SystemConfigTupleMarker, P0, P1, P2, P3, ), O>::configs_view(&t)->configs[2] == t.2.configs_view(),
        IntoSystemConfigs::<(SystemConfigTupleMarker, P0, P1, P2, P3, ), O>::configs_view(&t)->configs[3] == t.3.configs_view(),
        IntoSystemConfigs::<(SystemConfigTupleMarker, P0, P1, P2, P3, ), O>::configs_view(&t)->collective_conditions.len() == 0,
        IntoSystemConfigs::<(SystemConfigTupleMarker, P0, P1, P2, P3, ), O>::configs_view(&t)->chained is Unchained,
{
}

/// A tuple of 5 system configuration(s) converts into a collection whose elements
/// are the components' configurations in component order, with no collective
/// conditions and no chaining.
pub proof fn law_system_tuple_5_in_order<O, P0, S0: IntoSystemConfigs<P0, O>, P1, S1: IntoSystemConfigs<P1, O>, P2, S2: IntoSystemConfigs<P2, O>, P3, S3: IntoSystemConfigs<P3, O>, P4, S4: IntoSystemConfigs<P4, O>>(t: (S0, S1, S2, S3, S4, ))
    ensures
        IntoSystemConfigs::<(SystemConfigTupleMarker, P0, P1, P2, P3, P4, ), O>::configs_view(&t) is Configs,
        IntoSystemConfigs::<(SystemConfigTupleMarker, P0, P1, P2, P3, P4, ), O>::configs_view(&t)->configs.len() == 5,
        IntoSystemConfigs::<(SystemConfigTupleMarker, P0, P1, P2, P3, P4, ), O>::configs_view(&t)->configs[0] == t.0.configs_view(),
        IntoSystemConfigs::<(SystemConfigTupleMarker, P0, P1, P2, P3, P4, ), O>::configs_view(&t)->configs[1] == t.1.configs_view(),
        IntoSystemConfigs::<(SystemConfigTupleMarker, P0, P1, P2, P3, P4, ), O>::configs_view(&t)->configs[2] == t.2.configs_view(),
        IntoSystemConfigs::<(SystemConfigTupleMarker, P0, P1, P2, P3, P4, ), O>::configs_view(&t)->configs[3] == t.3.configs_view(),
        IntoSystemConfigs::<(SystemConfigTupleMarker, P0, P1, P2, P3, P4, ), O>::configs_view(&t)->configs[4] == t.4.configs_view(),
        IntoSystemConfigs::<(SystemConfigTupleMarker, P0, P1, P2, P3, P4, ), O>::configs_view(&t)->collective_conditions.len() == 0,
        IntoSystemConfigs::<(SystemConfigTupleMarker, P0, P1, P2, P3, P4, ), O>::configs_view(&t)->chained is Unchained,
{
}

/// A tuple of 6 system configuration(s) converts into a collection whose elements
/// are the components' configurations in component order, with no collective
/// conditions and no chaining.
pub proof fn law_system_tuple_6_in_order<O, P0, S0: IntoSystemConfigs<P0, O>, P1, S1: IntoSystemConfigs<P1, O>, P2, S2: IntoSystemConfigs<P2, O>, P3, S3: IntoSystemConfigs<P3, O>, P4, S4: IntoSystemConfigs<P4, O>, P5, S5: IntoSystemConfigs<P5, O>>(t: (S0, S1, S2, S3, S4, S5, ))
    ensures
        IntoSystemConfigs::<(SystemConfigTupleMarker, P0, P1, P2, P3, P4, P5, ), O>::configs_view(&t) is Configs,
        IntoSystemConfigs::<(SystemConfigTupleMarker, P0, P1, P2, P3, P4, P5, ), O>::configs_view(&t)->configs.len() == 6,
        IntoSystemConfigs::<(SystemConfigTupleMarker, P0, P1, P2, P3, P4, P5, ), O>::configs_view(&t)->configs[0] == t.0.configs_view(),
        IntoSystemConfigs::<(SystemConfigTupleMarker, P0, P1, P2, P3, P4, P5, ), O>::configs_view(&t)->configs[1] == t.1.configs_view(),
        IntoSystemConfigs::<(SystemConfigTupleMarker, P0, P1, P2, P3, P4, P5, ), O>::configs_view(&t)->configs[2] == t.2.configs_view(),
        IntoSystemConfigs::<(SystemConfigTupleMarker, P0, P1, P2, P3, P4, P5, ), O>::configs_view(&t)->configs[3] == t.3.configs_view(),
        IntoSystemConfigs::<(SystemConfigTupleMarker, P0, P1, P2, P3, P4, P5, ), O>::configs_view(&t)->configs[4] == t.4.configs_view(),
        IntoSystemConfigs::<(SystemConfigTupleMarker, P0, P1, P2, P3, P4, P5, ), O>::configs_view(&t)->configs[5] == t.5.configs_view(),
        IntoSystemConfigs::<(SystemConfigTupleMarker, P0, P1, P2, P3, P4, P5, ), O>::configs_view(&t)->collective_conditions.len() == 0,
        IntoSystemConfigs::<(SystemConfigTupleMarker, P0, P1, P2, P3, P4, P5, ), O>::configs_view(&t)->chained is Unchained,
{
}

/// A tuple of 7 system configuration(s) converts into a collection whose elements
/// are the components' configurations in component order, with no collective
/// conditions and no chaining.
pub proof fn law_system_tuple_7_in_order<O, P0, S0: IntoSystemConfigs<P0, O>, P1, S1: IntoSystemConfigs<P1, O>, P2, S2: IntoSystemConfigs<P2, O>, P3, S3: IntoSystemConfigs<P3, O>, P4, S4: IntoSystemConfigs<P4, O>, P5, S5: IntoSystemConfigs<P5, O>, P6, S6: IntoSystemConfigs<P6, O>>(t: (S0, S1, S2, S3, S4, S5, S6, ))
    ensures
        IntoSystemConfigs::<(SystemConfigTupleMarker, P0, P1, P2, P3, P4, P5, P6, ), O>::configs_view(&t) is Configs,
        IntoSystemConfigs::<(SystemConfigTupleMarker, P0, P1, P2, P3, P4, P5, P6, ), O>::configs_view(&t)->configs.len() == 7,
        IntoSystemConfigs::<(SystemConfigTupleMarker, P0, P1, P2, P3, P4, P5, P6, ), O>::configs_view(&t)->configs[0] == t.0.configs_view(),
        IntoSystemConfigs::<(SystemConfigTupleMarker, P0, P1, P2, P3, P4, P5, P6, ), O>::configs_view(&t)->configs[1] == t.1.configs_view(),
        IntoSystemConfigs::<(SystemConfigTupleMarker, P0, P1, P2, P3, P4, P5, P6, ), O>::configs_view(&t)->configs[2] == t.2.configs_view(),
        IntoSystemConfigs::<(SystemConfigTupleMarker, P0, P1, P2, P3, P4, P5, P6, ), O>::configs_view(&t)->configs[3] == t.3.configs_view(),
        IntoSystemConfigs::<(SystemConfigTupleMarker, P0, P1, P2, P3, P4, P5, P6, ), O>::configs_view(&t)->configs[4] == t.4.configs_view(),
        IntoSystemConfigs::<(SystemConfigTupleMarker, P0, P1, P2, P3, P4, P5, P6, ), O>::configs_view(&t)->configs[5] == t.5.configs_view(),
        IntoSystemConfigs::<(SystemConfigTupleMarker, P0, P1, P2, P3, P4, P5, P6, ), O>::configs_view(&t)->configs[6] == t.6.configs_view(),
        IntoSystemConfigs::<(SystemConfigTupleMarker, P0, P1, P2, P3, P4, P5, P6, ), O>::configs_view(&t)->collective_conditions.len() == 0,
        IntoSystemConfigs::<(SystemConfigTupleMarker, P0, P1, P2, P3, P4, P5, P6, ), O>::configs_view(&t)->chained is Unchained,
{
}

/// A tuple of 8 system configuration(s) converts into a collection whose elements
/// are the components' configurations in component order, with no collective
/// conditions and no chaining.
pub proof fn law_system_tuple_8_in_order<O, P0, S0: IntoSystemConfigs<P0, O>, P1, S1: IntoSystemConfigs<P1, O>, P2, S2: IntoSystemConfigs<P2, O>, P3, S3: IntoSystemConfigs<P3, O>, P4, S4: IntoSystemConfigs<P4, O>, P5, S5: IntoSystemConfigs<P5, O>, P6, S6: IntoSystemConfigs<P6, O>, P7, S7: IntoSystemConfigs<P7, O>>(t: (S0, S1, S2, S3, S4, S5, S6, S7, ))
    ensures
        IntoSystemConfigs::<(SystemConfigTupleMarker, P0, P1, P2, P3, P4, P5, P6, P7, ), O>::configs_view(&t) is Configs,
        IntoSystemConfigs::<(SystemConfigTupleMarker, P0, P1, P2, P3, P4, P5, P6, P7, ), O>::configs_view(&t)->configs.len() == 8,
        IntoSystemConfigs::<(SystemConfigTupleMarker, P0, P1, P2, P3, P4, P5, P6, P7, ), O>::configs_view(&t)->configs[0] == t.0.configs_view(),
        IntoSystemConfigs::<(SystemConfigTupleMarker, P0, P1, P2, P3, P4, P5, P6, P7, ), O>::configs_view(&t)->configs[1] == t.1.configs_view(),
        IntoSystemConfigs::<(SystemConfigTupleMarker, P0, P1, P2, P3, P4, P5, P6, P7, ), O>::configs_view(&t)->configs[2] == t.2.configs_view(),
        IntoSystemConfigs::<(SystemConfigTupleMarker, P0, P1, P2, P3, P4, P5, P6, P7, ), O>::configs_view(&t)->configs[3] == t.3.configs_view(),
        IntoSystemConfigs::<(SystemConfigTupleMarker, P0, P1, P2, P3, P4, P5, P6, P7, ), O>::configs_view(&t)->configs[4] == t.4.configs_view(),
        IntoSystemConfigs::<(SystemConfigTupleMarker, P0, P1, P2, P3, P4, P5, P6, P7, ), O>::configs_view(&t)->configs[5] == t.5.configs_view(),
        IntoSystemConfigs::<(SystemConfigTupleMarker, P0, P1, P2, P3, P4, P5, P6, P7, ), O>::configs_view(&t)->configs[6] == t.6.configs_view(),
        IntoSystemConfigs::<(SystemConfigTupleMarker, P0, P1, P2, P3, P4, P5, P6, P7, ), O>::configs_view(&t)->configs[7] == t.7.configs_view(),
        IntoSystemConfigs::<(SystemConfigTupleMarker, P0, P1, P2, P3, P4, P5, P6, P7, ), O>::configs_view(&t)->collective_conditions.len() == 0,
        IntoSystemConfigs::<(SystemConfigTupleMarker, P0, P1, P2, P3, P4, P5, P6, P7, ), O>::configs_view(&t)->chained is Unchained,
{
}

/// A tuple of 9 system configuration(s) converts into a collection whose elements
/// are the components' configurations in component order, with no collective
/// conditions and no chaining.
pub proof fn law_system_tuple_9_in_order<O, P0, S0: IntoSystemConfigs<P0, O>, P1, S1: IntoSystemConfigs<P1, O>, P2, S2: IntoSystemConfigs<P2, O>, P3, S3: IntoSystemConfigs<P3, O>, P4, S4: IntoSystemConfigs<P4, O>, P5, S5: IntoSystemConfigs<P5, O>, P6, S6: IntoSystemConfigs<P6, O>, P7, S7: IntoSystemConfigs<P7, O>, P8, S8: IntoSystemConfigs<P8, O>>(t: (S0, S1, S2, S3, S4, S5, S6, S7, S8, ))
    ensures
        IntoSystemConfigs::<(SystemConfigTupleMarker, P0, P1, P2, P3, P4, P5, P6, P7, P8, ), O>::configs_view(&t) is Configs,
        IntoSystemConfigs::<(SystemConfigTupleMarker, P0, P1, P2, P3, P4, P5, P6, P7, P8, ), O>::configs_view(&t)->configs.len() == 9,
        IntoSystemConfigs::<(SystemConfigTupleMarker, P0, P1, P2, P3, P4, P5, P6, P7, P8, ), O>::configs_view(&t)->configs[0] == t.0.configs_view(),
        IntoSystemConfigs::<(SystemConfigTupleMarker, P0, P1, P2, P3, P4, P5, P6, P7, P8, ), O>::configs_view(&t)->configs[1] == t.1.configs_view(),
        IntoSystemConfigs::<(SystemConfigTupleMarker, P0, P1, P2, P3, P4, P5, P6, P7, P8, ), O>::configs_view(&t)->configs[2] == t.2.configs_view(),
        IntoSystemConfigs::<(SystemConfigTupleMarker, P0, P1, P2, P3, P4, P5, P6, P7, P8, ), O>::configs_view(&t)->configs[3] == t.3.configs_view(),
        IntoSystemConfigs::<(SystemConfigTupleMarker, P0, P1, P2, P3, P4, P5, P6, P7, P8, ), O>::configs_view(&t)->configs[4] == t.4.configs_view(),
        IntoSystemConfigs::<(SystemConfigTupleMarker, P0, P1, P2, P3, P4, P5, P6, P7, P8, ), O>::configs_view(&t)->configs[5] == t.5.configs_view(),
        IntoSystemConfigs::<(SystemConfigTupleMarker, P0, P1, P2, P3, P4, P5, P6, P7, P8, ), O>::configs_view(&t)->configs[6] == t.6.configs_view(),
        IntoSystemConfigs::<(SystemConfigTupleMarker, P0, P1, P2, P3, P4, P5, P6, P7, P8, ), O>::configs_view(&t)->configs[7] == t.7.configs_view(),
        IntoSystemConfigs::<(SystemConfigTupleMarker, P0, P1, P2, P3, P4, P5, P6, P7, P8, ), O>::configs_view(&t)->configs[8] == t.8.configs_view(),
        IntoSystemConfigs::<(SystemConfigTupleMarker, P0, P1, P2, P3, P4, P5, P6, P7, P8, ), O>::configs_view(&t)->collective_conditions.len() == 0,
        IntoSystemConfigs::<(SystemConfigTupleMarker, P0, P1, P2, P3, P4, P5, P6, P7, P8, ), O>::configs_view(&t)->chained is Unchained,
{
}

/// A tuple of 10 system configuration(s) converts into a collection whose elements
/// are the components' configurations in component order, with no collective
/// conditions and no chaining.
pub proof fn law_system_tuple_10_in_order<O, P0, S0: IntoSystemConfigs<P0, O>, P1, S1: IntoSystemConfigs<P1, O>, P2, S2: IntoSystemConfigs<P2, O>, P3, S3: IntoSystemConfigs<P3, O>, P4, S4: IntoSystemConfigs<P4, O>, P5, S5: IntoSystemConfigs<P5, O>, P6, S6: IntoSystemConfigs<P6, O>, P7, S7: IntoSystemConfigs<P7, O>, P8, S8: IntoSystemConfigs<P8, O>, P9, S9: IntoSystemConfigs<P9, O>>(t: (S0, S1, S2, S3, S4, S5, S6, S7, S8, S9, ))
    ensures
        IntoSystemConfigs::<(SystemConfigTupleMarker, P0, P1, P2, P3, P4, P5, P6, P7, P8, P9, ), O>::configs_view(&t) is Configs,
        IntoSystemConfigs::<(SystemConfigTupleMarker, P0, P1, P2, P3, P4, P5, P6, P7, P8, P9, ), O>::configs_view(&t)->configs.len() == 10,
        IntoSystemConfigs::<(SystemConfigTupleMarker, P0, P1, P2, P3, P4, P5, P6, P7, P8, P9, ), O>::configs_view(&t)->configs[0] == t.0.configs_view(),
        IntoSystemConfigs::<(SystemConfigTupleMarker, P0, P1, P2, P3, P4, P5, P6, P7, P8, P9, ), O>::configs_view(&t)->configs[1] == t.1.configs_view(),
        IntoSystemConfigs::<(SystemConfigTupleMarker, P0, P1, P2, P3, P4, P5, P6, P7, P8, P9, ), O>::configs_view(&t)->configs[2] == t.2.configs_view(),
        IntoSystemConfigs::<(SystemConfigTupleMarker, P0, P1, P2, P3, P4, P5, P6, P7, P8, P9, ), O>::configs_view(&t)->configs[3] == t.3.configs_view(),
        IntoSystemConfigs::<(SystemConfigTupleMarker, P0, P1, P2, P3, P4, P5, P6, P7, P8, P9, ), O>::configs_view(&t)->configs[4] == t.4.configs_view(),
        IntoSystemConfigs::<(SystemConfigTupleMarker, P0, P1, P2, P3, P4, P5, P6, P7, P8, P9, ), O>::configs_view(&t)->configs[5] == t.5.configs_view(),
        IntoSystemConfigs::<(SystemConfigTupleMarker, P0, P1, P2, P3, P4, P5, P6, P7, P8, P9, ), O>::configs_view(&t)->configs[6] == t.6.configs_view(),
        IntoSystemConfigs::<(SystemConfigTupleMarker, P0, P1, P2, P3, P4, P5, P6, P7, P8, P9, ), O>::configs_view(&t)->configs[7] == t.7.configs_view(),
        IntoSystemConfigs::<(SystemConfigTupleMarker, P0, P1, P2, P3, P4, P5, P6, P7, P8, P9, ), O>::configs_view(&t)->configs[8] == t.8.configs_view(),
        IntoSystemConfigs::<(SystemConfigTupleMarker, P0, P1, P2, P3, P4, P5, P6, P7, P8, P9, ), O>::configs_view(&t)->configs[9] == t.9.configs_view(),
        IntoSystemConfigs::<(SystemConfigTupleMarker, P0, P1, P2, P3, P4, P5, P6, P7, P8, P9, ), O>::configs_view(&t)->collective_conditions.len() == 0,
        IntoSystemConfigs::<(SystemConfigTupleMarker, P0, P1, P2, P3, P4, P5, P6, P7, P8, P9, ), O>::configs_view(&t)->chained is Unchained,
{
}

/// A tuple of 11 system configuration(s) converts into a collection whose elements
/// are the components' configurations in component order, with no collective
/// conditions and no chaining.
pub proof fn law_system_tuple_11_in_order<O, P0, S0: IntoSystemConfigs<P0, O>, P1, S1: IntoSystemConfigs<P1, O>, P2, S2: IntoSystemConfigs<P2, O>, P3, S3: IntoSystemConfigs<P3, O>, P4, S4: IntoSystemConfigs<P4, O>, P5, S5: IntoSystemConfigs<P5, O>, P6, S6: IntoSystemConfigs<P6, O>, P7, S7: IntoSystemConfigs<P7, O>, P8, S8: IntoSystemConfigs<P8, O>, P9, S9: IntoSystemConfigs<P9, O>, P10, S10: IntoSystemConfigs<P10, O>>(t: (S0, S1, S2, S3, S4, S5, S6, S7, S8, S9, S10, ))
    ensures
        IntoSystemConfigs::<(SystemConfigTupleMarker, P0, P1, P2, P3, P4, P5, P6, P7, P8, P9, P10, ), O>::configs_view(&t) is Configs,
        IntoSystemConfigs::<(SystemConfigTupleMarker, P0, P1, P2, P3, P4, P5, P6, P7, P8, P9, P10, ), O>::configs_view(&t)->configs.len() == 11,
        IntoSystemConfigs::<(SystemConfigTupleMarker, P0, P1, P2, P3, P4, P5, P6, P7, P8, P9, P10, ), O>::configs_view(&t)->configs[0] == t.0.configs_view(),
        IntoSystemConfigs::<(SystemConfigTupleMarker, P0, P1, P2, P3, P4, P5, P6, P7, P8, P9, P10, ), O>::configs_view(&t)->configs[1] == t.1.configs_view(),
        IntoSystemConfigs::<(SystemConfigTupleMarker, P0, P1, P2, P3, P4, P5, P6, P7, P8, P9, P10, ), O>::configs_view(&t)->configs[2] == t.2.configs_view(),
        IntoSystemConfigs::<(SystemConfigTupleMarker, P0, P1, P2, P3, P4, P5, P6, P7, P8, P9, P10, ), O>::configs_view(&t)->configs[3] == t.3.configs_view(),
        IntoSystemConfigs::<(SystemConfigTupleMarker, P0, P1, P2, P3, P4, P5, P6, P7, P8, P9, P10, ), O>::configs_view(&t)->configs[4] == t.4.configs_view(),
        IntoSystemConfigs::<(SystemConfigTupleMarker, P0, P1, P2, P3, P4, P5, P6, P7, P8, P9, P10, ), O>::configs_view(&t)->configs[5] == t.5.configs_view(),
        IntoSystemConfigs::<(SystemConfigTupleMarker, P0, P1, P2, P3, P4, P5, P6, P7, P8, P9, P10, ), O>::configs_view(&t)->configs[6] == t.6.configs_view(),
        IntoSystemConfigs::<(SystemConfigTupleMarker, P0, P1, P2, P3, P4, P5, P6, P7, P8, P9, P10, ), O>::configs_view(&t)->configs[7] == t.7.configs_view(),
        IntoSystemConfigs::<(SystemConfigTupleMarker, P0, P1, P2, P3, P4, P5, P6, P7, P8, P9, P10, ), O>::configs_view(&t)->configs[8] == t.8.configs_view(),
        IntoSystemConfigs::<(SystemConfigTupleMarker, P0, P1, P2, P3, P4, P5, P6, P7, P8, P9, P10, ), O>::configs_view(&t)->configs[9] == t.9.configs_view(),
        IntoSystemConfigs::<(SystemConfigTupleMarker, P0, P1, P2, P3, P4, P5, P6, P7, P8, P9, P10, ), O>::configs_view(&t)->configs[10] == t.10.configs_view(),
        IntoSystemConfigs::<(SystemConfigTupleMarker, P0, P1, P2, P3, P4, P5, P6, P7, P8, P9, P10, ), O>::configs_view(&t)->collective_conditions.len() == 0,
        IntoSystemConfigs::<(SystemConfigTupleMarker, P0, P1, P2, P3, P4, P5, P6, P7, P8, P9, P10, ), O>::configs_view(&t)->chained is Unchained,
{
}

/// A tuple of 12 system configuration(s) converts into a collection whose elements
/// are the components' configurations in component order, with no collective
/// conditions and no chaining.
pub proof fn law_system_tuple_12_in_order<O, P0, S0: IntoSystemConfigs<P0, O>, P1, S1: IntoSystemConfigs<P1, O>, P2, S2: IntoSystemConfigs<P2, O>, P3, S3: IntoSystemConfigs<P3, O>, P4, S4: IntoSystemConfigs<P4, O>, P5, S5: IntoSystemConfigs<P5, O>, P6, S6: IntoSystemConfigs<P6, O>, P7, S7: IntoSystemConfigs<P7, O>, P8, S8: IntoSystemConfigs<P8, O>, P9, S9: IntoSystemConfigs<P9, O>, P10, S10: IntoSystemConfigs<P10, O>, P11, S11: IntoSystemConfigs<P11, O>>(t: (S0, S1, S2, S3, S4, S5, S6, S7, S8, S9, S10, S11, ))
    ensures
        IntoSystemConfigs::<(SystemConfigTupleMarker, P0, P1, P2, P3, P4, P5, P6, P7, P8, P9, P10, P11, ), O>::configs_view(&t) is Configs,
        IntoSystemConfigs::<(SystemConfigTupleMarker, P0, P1, P2, P3, P4, P5, P6, P7, P8, P9, P10, P11, ), O>::configs_view(&t)->configs.len() == 12,
        IntoSystemConfigs::<(SystemConfigTupleMarker, P0, P1, P2, P3, P4, P5, P6, P7, P8, P9, P10, P11, ), O>::configs_view(&t)->configs[0] == t.0.configs_view(),
        IntoSystemConfigs::<(SystemConfigTupleMarker, P0, P1, P2, P3, P4, P5, P6, P7, P8, P9, P10, P11, ), O>::configs_view(&t)->configs[1] == t.1.configs_view(),
        IntoSystemConfigs::<(SystemConfigTupleMarker, P0, P1, P2, P3, P4, P5, P6, P7, P8, P9, P10, P11, ), O>::configs_view(&t)->configs[2] == t.2.configs_view(),
        IntoSystemConfigs::<(SystemConfigTupleMarker, P0, P1, P2, P3, P4, P5, P6, P7, P8, P9, P10, P11, ), O>::configs_view(&t)->configs[3] == t.3.configs_view(),
        IntoSystemConfigs::<(SystemConfigTupleMarker, P0, P1, P2, P3, P4, P5, P6, P7, P8, P9, P10, P11, ), O>::configs_view(&t)->configs[4] == t.4.configs_view(),
        IntoSystemConfigs::<(SystemConfigTupleMarker, P0, P1, P2, P3, P4, P5, P6, P7, P8, P9, P10, P11, ), O>::configs_view(&t)->configs[5] == t.5.configs_view(),
        IntoSystemConfigs::<(SystemConfigTupleMarker, P0, P1, P2, P3, P4, P5, P6, P7, P8, P9, P10, P11, ), O>::configs_view(&t)->configs[6] == t.6.configs_view(),
        IntoSystemConfigs::<(SystemConfigTupleMarker, P0, P1, P2, P3, P4, P5, P6, P7, P8, P9, P10, P11, ), O>::configs_view(&t)->configs[7] == t.7.configs_view(),
        IntoSystemConfigs::<(SystemConfigTupleMarker, P0, P1, P2, P3, P4, P5, P6, P7, P8, P9, P10, P11, ), O>::configs_view(&t)->configs[8] == t.8.configs_view(),
        IntoSystemConfigs::<(SystemConfigTupleMarker, P0, P1, P2, P3, P4, P5, P6, P7, P8, P9, P10, P11, ), O>::configs_view(&t)->configs[9] == t.9.configs_view(),
        IntoSystemConfigs::<(SystemConfigTupleMarker, P0, P1, P2, P3, P4, P5, P6, P7, P8, P9, P10, P11, ), O>::configs_view(&t)->configs[10] == t.10.configs_view(),
        IntoSystemConfigs::<(SystemConfigTupleMarker, P0, P1, P2, P3, P4, P5, P6, P7, P8, P9, P10, P11, ), O>::configs_view(&t)->configs[11] == t.11.configs_view(),
        IntoSystemConfigs::<(SystemConfigTupleMarker, P0, P1, P2, P3, P4, P5, P6, P7, P8, P9, P10, P11, ), O>::configs_view(&t)->collective_conditions.len() == 0,
        IntoSystemConfigs::<(SystemConfigTupleMarker, P0, P1, P2, P3, P4, P5, P6, P7, P8, P9, P10, P11, ), O>::configs_view(&t)->chained is Unchained,
{
}

/// A tuple of 13 system configuration(s) converts into a collection whose elements
/// are the components' configurations in component order, with no collective
/// conditions and no chaining.
pub proof fn law_system_tuple_13_in_order<O, P0, S0: IntoSystemConfigs<P0, O>, P1, S1: IntoSystemConfigs<P1, O>, P2, S2: IntoSystemConfigs<P2, O>, P3, S3: IntoSystemConfigs<P3, O>, P4, S4: IntoSystemConfigs<P4, O>, P5, S5: IntoSystemConfigs<P5, O>, P6, S6: IntoSystemConfigs<P6, O>, P7, S7: IntoSystemConfigs<P7, O>, P8, S8: IntoSystemConfigs<P8, O>, P9, S9: IntoSystemConfigs<P9, O>, P10, S10: IntoSystemConfigs<P10, O>, P11, S11: IntoSystemConfigs<P11, O>, P12, S12: IntoSystemConfigs<P12, O>>(t: (S0, S1, S2, S3, S4, S5, S6, S7, S8, S9, S10, S11, S12, ))
    ensures
        IntoSystemConfigs::<(SystemConfigTupleMarker, P0, P1, P2, P3, P4, P5, P6, P7, P8, P9, P10, P11, P12, ), O>::configs_view(&t) is Configs,
        IntoSystemConfigs::<(SystemConfigTupleMarker, P0, P1, P2, P3, P4, P5, P6, P7, P8, P9, P10, P11, P12, ), O>::configs_view(&t)->configs.len() == 13,
        IntoSystemConfigs::<(SystemConfigTupleMarker, P0, P1, P2, P3, P4, P5, P6, P7, P8, P9, P10, P11, P12, ), O>::configs_view(&t)->configs[0] == t.0.configs_view(),
        IntoSystemConfigs::<(SystemConfigTupleMarker, P0, P1, P2, P3, P4, P5, P6, P7, P8, P9, P10, P11, P12, ), O>::configs_view(&t)->configs[1] == t.1.configs_view(),
        IntoSystemConfigs::<(SystemConfigTupleMarker, P0, P1, P2, P3, P4, P5, P6, P7, P8, P9, P10, P11, P12, ), O>::configs_view(&t)->configs[2] == t.2.configs_view(),
        IntoSystemConfigs::<(SystemConfigTupleMarker, P0, P1, P2, P3, P4, P5, P6, P7, P8, P9, P10, P11, P12, ), O>::configs_view(&t)->configs[3] == t.3.configs_view(),
        IntoSystemConfigs::<(SystemConfigTupleMarker, P0, P1, P2, P3, P4, P5, P6, P7, P8, P9, P10, P11, P12, ), O>::configs_view(&t)->configs[4] == t.4.configs_view(),
        IntoSystemConfigs::<(SystemConfigTupleMarker, P0, P1, P2, P3, P4, P5, P6, P7, P8, P9, P10, P11, P12, ), O>::configs_view(&t)->configs[5] == t.5.configs_view(),
        IntoSystemConfigs::<(SystemConfigTupleMarker, P0, P1, P2, P3, P4, P5, P6, P7, P8, P9, P10, P11, P12, ), O>::configs_view(&t)->configs[6] == t.6.configs_view(),
        IntoSystemConfigs::<(SystemConfigTupleMarker, P0, P1, P2, P3, P4, P5, P6, P7, P8, P9, P10, P11, P12, ), O>::configs_view(&t)->configs[7] == t.7.configs_view(),
        IntoSystemConfigs::<(SystemConfigTupleMarker, P0, P1, P2, P3, P4, P5, P6, P7, P8, P9, P10, P11, P12, ), O>::configs_view(&t)->configs[8] == t.8.configs_view(),
        IntoSystemConfigs::<(SystemConfigTupleMarker, P0, P1, P2, P3, P4, P5, P6, P7, P8, P9, P10, P11, P12, ), O>::configs_view(&t)->configs[9] == t.9.configs_view(),
        IntoSystemConfigs::<(SystemConfigTupleMarker, P0, P1, P2, P3, P4, P5, P6, P7, P8, P9, P10, P11, P12, ), O>::configs_view(&t)->configs[10] == t.10.configs_view(),
        IntoSystemConfigs::<(SystemConfigTupleMarker, P0, P1, P2, P3, P4, P5, P6, P7, P8, P9, P10, P11, P12, ), O>::configs_view(&t)->configs[11] == t.11.configs_view(),
        IntoSystemConfigs::<(SystemConfigTupleMarker, P0, P1, P2, P3, P4, P5, P6, P7, P8, P9, P10, P11, P12, ), O>::configs_view(&t)->configs[12] == t.12.configs_view(),
        IntoSystemConfigs::<(SystemConfigTupleMarker, P0, P1, P2, P3, P4, P5, P6, P7, P8, P9, P10, P11, P12, ), O>::configs_view(&t)->collective_conditions.len() == 0,
        IntoSystemConfigs::<(SystemConfigTupleMarker, P0, P1, P2, P3, P4, P5, P6, P7, P8, P9, P10, P11, P12, ), O>::configs_view(&t)->chained is Unchained,
{
}

/// A tuple of 14 system configuration(s) converts into a collection whose elements
/// are the components' configurations in component order, with no collective
/// conditions and no chaining.
pub proof fn law_system_tuple_14_in_order<O, P0, S0: IntoSystemConfigs<P0, O>, P1, S1: IntoSystemConfigs<P1, O>, P2, S2: IntoSystemConfigs<P2, O>, P3, S3: IntoSystemConfigs<P3, O>, P4, S4: IntoSystemConfigs<P4, O>, P5, S5: IntoSystemConfigs<P5, O>, P6, S6: IntoSystemConfigs<P6, O>, P7, S7: IntoSystemConfigs<P7, O>, P8, S8: IntoSystemConfigs<P8, O>, P9, S9: IntoSystemConfigs<P9, O>, P10, S10: IntoSystemConfigs<P10, O>, P11, S11: IntoSystemConfigs<P11, O>, P12, S12: IntoSystemConfigs<P12, O>, P13, S13: IntoSystemConfigs<P13, O>>(t: (S0, S1, S2, S3, S4, S5, S6, S7, S8, S9, S10, S11, S12, S13, ))
    ensures
        IntoSystemConfigs::<(SystemConfigTupleMarker, P0, P1, P2, P3, P4, P5, P6, P7, P8, P9, P10, P11, P12, P13, ), O>::configs_view(&t) is Configs,
        IntoSystemConfigs::<(SystemConfigTupleMarker, P0, P1, P2, P3, P4, P5, P6, P7, P8, P9, P10, P11, P12, P13, ), O>::configs_view(&t)->configs.len() == 14,
        IntoSystemConfigs::<(SystemConfigTupleMarker, P0, P1, P2, P3, P4, P5, P6, P7, P8, P9, P10, P11, P12, P13, ), O>::configs_view(&t)->configs[0] == t.0.configs_view(),
        IntoSystemConfigs::<(SystemConfigTupleMarker, P0, P1, P2, P3, P4, P5, P6, P7, P8, P9, P10, P11, P12, P13, ), O>::configs_view(&t)->configs[1] == t.1.configs_view(),
        IntoSystemConfigs::<(SystemConfigTupleMarker, P0, P1, P2, P3, P4, P5, P6, P7, P8, P9, P10, P11, P12, P13, ), O>::configs_view(&t)->configs[2] == t.2.configs_view(),
        IntoSystemConfigs::<(SystemConfigTupleMarker, P0, P1, P2, P3, P4, P5, P6, P7, P8, P9, P10, P11, P12, P13, ), O>::configs_view(&t)->configs[3] == t.3.configs_view(),
        IntoSystemConfigs::<(SystemConfigTupleMarker, P0, P1, P2, P3, P4, P5, P6, P7, P8, P9, P10, P11, P12, P13, ), O>::configs_view(&t)->configs[4] == t.4.configs_view(),
        IntoSystemConfigs::<(SystemConfigTupleMarker, P0, P1, P2, P3, P4, P5, P6, P7, P8, P9, P10, P11, P12, P13, ), O>::configs_view(&t)->configs[5] == t.5.configs_view(),
        IntoSystemConfigs::<(SystemConfigTupleMarker, P0, P1, P2, P3, P4, P5, P6, P7, P8, P9, P10, P11, P12, P13, ), O>::configs_view(&t)->configs[6] == t.6.configs_view(),
        IntoSystemConfigs::<(SystemConfigTupleMarker, P0, P1, P2, P3, P4, P5, P6, P7, P8, P9, P10, P11, P12, P13, ), O>::configs_view(&t)->configs[7] == t.7.configs_view(),
        IntoSystemConfigs::<(SystemConfigTupleMarker, P0, P1, P2, P3, P4, P5, P6, P7, P8, P9, P10, P11, P12, P13, ), O>::configs_view(&t)->configs[8] == t.8.configs_view(),
        IntoSystemConfigs::<(SystemConfigTupleMarker, P0, P1, P2, P3, P4, P5, P6, P7, P8, P9, P10, P11, P12, P13, ), O>::configs_view(&t)->configs[9] == t.9.configs_view(),
        IntoSystemConfigs::<(SystemConfigTupleMarker, P0, P1, P2, P3, P4, P5, P6, P7, P8, P9, P10, P11, P12, P13, ), O>::configs_view(&t)->configs[10] == t.10.configs_view(),
        IntoSystemConfigs::<(SystemConfigTupleMarker, P0, P1, P2, P3, P4, P5, P6, P7, P8, P9, P10, P11, P12, P13, ), O>::configs_view(&t)->configs[11] == t.11.configs_view(),
        IntoSystemConfigs::<(SystemConfigTupleMarker, P0, P1, P2, P3, P4, P5, P6, P7, P8, P9, P10, P11, P12, P13, ), O>::configs_view(&t)->configs[12] == t.12.configs_view(),
        IntoSystemConfigs::<(SystemConfigTupleMarker, P0, P1, P2, P3, P4, P5, P6, P7, P8, P9, P10, P11, P12, P13, ), O>::configs_view(&t)->configs[13] == t.13.configs_view(),
        IntoSystemConfigs::<(SystemConfigTupleMarker, P0, P1, P2, P3, P4, P5, P6, P7, P8, P9, P10, P11, P12, P13, ), O>::configs_view(&t)->collective_conditions.len() == 0,
        IntoSystemConfigs::<(SystemConfigTupleMarker, P0, P1, P2, P3, P4, P5, P6, P7, P8, P9, P10, P11, P12, P13, ), O>::configs_view(&t)->chained is Unchained,
{
}

/// A tuple of 15 system configuration(s) converts into a collection whose elements
/// are the components' configurations in component order, with no collective
/// conditions and no chaining.
pub proof fn law_system_tuple_15_in_order<O, P0, S0: IntoSystemConfigs<P0, O>, P1, S1: IntoSystemConfigs<P1, O>, P2, S2: IntoSystemConfigs<P2, O>, P3, S3: IntoSystemConfigs<P3, O>, P4, S4: IntoSystemConfigs<P4, O>, P5, S5: IntoSystemConfigs<P5, O>, P6, S6: IntoSystemConfigs<P6, O>, P7, S7: IntoSystemConfigs<P7, O>, P8, S8: IntoSystemConfigs<P8, O>, P9, S9: IntoSystemConfigs<P9, O>, P10, S10: IntoSystemConfigs<P10, O>, P11, S11: IntoSystemConfigs<P11, O>, P12, S12: IntoSystemConfigs<P12, O>, P13, S13: IntoSystemConfigs<P13, O>, P14, S14: IntoSystemConfigs<P14, O>>(t: (S0, S1, S2, S3, S4, S5, S6, S7, S8, S9, S10, S11, S12, S13, S14, ))
    ensures
        IntoSystemConfigs::<(SystemConfigTupleMarker, P0, P1, P2, P3, P4, P5, P6, P7, P8, P9, P10, P11, P12, P13, P14, ), O>::configs_view(&t) is Configs,
        IntoSystemConfigs::<(SystemConfigTupleMarker, P0, P1, P2, P3, P4, P5, P6, P7, P8, P9, P10, P11, P12, P13, P14, ), O>::configs_view(&t)->configs.len() == 15,
        IntoSystemConfigs::<(SystemConfigTupleMarker, P0, P1, P2, P3, P4, P5, P6, P7, P8, P9, P10, P11, P12, P13, P14, ), O>::configs_view(&t)->configs[0] == t.0.configs_view(),
        IntoSystemConfigs::<(SystemConfigTupleMarker, P0, P1, P2, P3, P4, P5, P6, P7, P8, P9, P10, P11, P12, P13, P14, ), O>::configs_view(&t)->configs[1] == t.1.configs_view(),
        IntoSystemConfigs::<(SystemConfigTupleMarker, P0, P1, P2, P3, P4, P5, P6, P7, P8, P9, P10, P11, P12, P13, P14, ), O>::configs_view(&t)->configs[2] == t.2.configs_view(),
        IntoSystemConfigs::<(SystemConfigTupleMarker, P0, P1, P2, P3, P4, P5, P6, P7, P8, P9, P10, P11, P12, P13, P14, ), O>::configs_view(&t)->configs[3] == t.3.configs_view(),
        IntoSystemConfigs::<(SystemConfigTupleMarker, P0, P1, P2, P3, P4, P5, P6, P7, P8, P9, P10, P11, P12, P13, P14, ), O>::configs_view(&t)->configs[4] == t.4.configs_view(),
        IntoSystemConfigs::<(SystemConfigTupleMarker, P0, P1, P2, P3, P4, P5, P6, P7, P8, P9, P10, P11, P12, P13, P14, ), O>::configs_view(&t)->configs[5] == t.5.configs_view(),
        IntoSystemConfigs::<(SystemConfigTupleMarker, P0, P1, P2, P3, P4, P5, P6, P7, P8, P9, P10, P11, P12, P13, P14, ), O>::configs_view(&t)->configs[6] == t.6.configs_view(),
        IntoSystemConfigs::<(SystemConfigTupleMarker, P0, P1, P2, P3, P4, P5, P6, P7, P8, P9, P10, P11, P12, P13, P14, ), O>::configs_view(&t)->configs[7] == t.7.configs_view(),
        IntoSystemConfigs::<(SystemConfigTupleMarker, P0, P1, P2, P3, P4, P5, P6, P7, P8, P9, P10, P11, P12, P13, P14, ), O>::configs_view(&t)->configs[8] == t.8.configs_view(),
        IntoSystemConfigs::<(SystemConfigTupleMarker, P0, P1, P2, P3, P4, P5, P6, P7, P8, P9, P10, P11, P12, P13, P14, ), O>::configs_view(&t)->configs[9] == t.9.configs_view(),
        IntoSystemConfigs::<(SystemConfigTupleMarker, P0, P1, P2, P3, P4, P5, P6, P7, P8, P9, P10, P11, P12, P13, P14, ), O>::configs_view(&t)->configs[10] == t.10.configs_view(),
        IntoSystemConfigs::<(SystemConfigTupleMarker, P0, P1, P2, P3, P4, P5, P6, P7, P8, P9, P10, P11, P12, P13, P14, ), O>::configs_view(&t)->configs[11] == t.11.configs_view(),
        IntoSystemConfigs::<(SystemConfigTupleMarker, P0, P1, P2, P3, P4, P5, P6, P7, P8, P9, P10, P11, P12, P13, P14, ), O>::configs_view(&t)->configs[12] == t.12.configs_view(),
        IntoSystemConfigs::<(SystemConfigTupleMarker, P0, P1, P2, P3, P4, P5, P6, P7, P8, P9, P10, P11, P12, P13, P14, ), O>::configs_view(&t)->configs[13] == t.13.configs_view(),
        IntoSystemConfigs::<(SystemConfigTupleMarker, P0, P1, P2, P3, P4, P5, P6, P7, P8, P9, P10, P11, P12, P13, P14, ), O>::configs_view(&t)->configs[14] == t.14.configs_view(),
        IntoSystemConfigs::<(SystemConfigTupleMarker, P0, P1, P2, P3, P4, P5, P6, P7, P8, P9, P10, P11, P12, P13, P14, ), O>::configs_view(&t)->collective_conditions.len() == 0,
        IntoSystemConfigs::<(SystemConfigTupleMarker, P0, P1, P2, P3, P4, P5, P6, P7, P8, P9, P10, P11, P12, P13, P14, ), O>::configs_view(&t)->chained is Unchained,
{
}

/// A tuple of 16 system configuration(s) converts into a collection whose elements
/// are the components' configurations in component order, with no collective
/// conditions and no chaining.
pub proof fn law_system_tuple_16_in_order<O, P0, S0: IntoSystemConfigs<P0, O>, P1, S1: IntoSystemConfigs<P1, O>, P2, S2: IntoSystemConfigs<P2, O>, P3, S3: IntoSystemConfigs<P3, O>, P4, S4: IntoSystemConfigs<P4, O>, P5, S5: IntoSystemConfigs<P5, O>, P6, S6: IntoSystemConfigs<P6, O>, P7, S7: IntoSystemConfigs<P7, O>, P8, S8: IntoSystemConfigs<P8, O>, P9, S9: IntoSystemConfigs<P9, O>, P10, S10: IntoSystemConfigs<P10, O>, P11, S11: IntoSystemConfigs<P11, O>, P12, S12: IntoSystemConfigs<P12, O>, P13, S13: IntoSystemConfigs<P13, O>, P14, S14: IntoSystemConfigs<P14, O>, P15, S15: IntoSystemConfigs<P15, O>>(t: (S0, S1, S2, S3, S4, S5, S6, S7, S8, S9, S10, S11, S12, S13, S14, S15, ))
    ensures
        IntoSystemConfigs::<(SystemConfigTupleMarker, P0, P1, P2, P3, P4, P5, P6, P7, P8, P9, P10, P11, P12, P13, P14, P15, ), O>::configs_view(&t) is Configs,
        IntoSystemConfigs::<(SystemConfigTupleMarker, P0, P1, P2, P3, P4, P5, P6, P7, P8, P9, P10, P11, P12, P13, P14, P15, ), O>::configs_view(&t)->configs.len() == 16,
        IntoSystemConfigs::<(SystemConfigTupleMarker, P0, P1, P2, P3, P4, P5, P6, P7, P8, P9, P10, P11, P12, P13, P14, P15, ), O>::configs_view(&t)->configs[0] == t.0.configs_view(),
        IntoSystemConfigs::<(SystemConfigTupleMarker, P0, P1, P2, P3, P4, P5, P6, P7, P8, P9, P10, P11, P12, P13, P14, P15, ), O>::configs_view(&t)->configs[1] == t.1.configs_view(),
        IntoSystemConfigs::<(SystemConfigTupleMarker, P0, P1, P2, P3, P4, P5, P6, P7, P8, P9, P10, P11, P12, P13, P14, P15, ), O>::configs_view(&t)->configs[2] == t.2.configs_view(),
        IntoSystemConfigs::<(SystemConfigTupleMarker, P0, P1, P2, P3, P4, P5, P6, P7, P8, P9, P10, P11, P12, P13, P14, P15, ), O>::configs_view(&t)->configs[3] == t.3.configs_view(),
        IntoSystemConfigs::<(SystemConfigTupleMarker, P0, P1, P2, P3, P4, P5, P6, P7, P8, P9, P10, P11, P12, P13, P14, P15, ), O>::configs_view(&t)->configs[4] == t.4.configs_view(),
        IntoSystemConfigs::<(SystemConfigTupleMarker, P0, P1, P2, P3, P4, P5, P6, P7, P8, P9, P10, P11, P12, P13, P14, P15, ), O>::configs_view(&t)->configs[5] == t.5.configs_view(),
        IntoSystemConfigs::<(SystemConfigTupleMarker, P0, P1, P2, P3, P4, P5, P6, P7, P8, P9, P10, P11, P12, P13, P14, P15, ), O>::configs_view(&t)->configs[6] == t.6.configs_view(),
        IntoSystemConfigs::<(SystemConfigTupleMarker, P0, P1, P2, P3, P4, P5, P6, P7, P8, P9, P10, P11, P12, P13, P14, P15, ), O>::configs_view(&t)->configs[7] == t.7.configs_view(),
        IntoSystemConfigs::<(SystemConfigTupleMarker, P0, P1, P2, P3, P4, P5, P6, P7, P8, P9, P10, P11, P12, P13, P14, P15, ), O>::configs_view(&t)->configs[8] == t.8.configs_view(),
        IntoSystemConfigs::<(SystemConfigTupleMarker, P0, P1, P2, P3, P4, P5, P6, P7, P8, P9, P10, P11, P12, P13, P14, P15, ), O>::configs_view(&t)->configs[9] == t.9.configs_view(),
        IntoSystemConfigs::<(SystemConfigTupleMarker, P0, P1, P2, P3, P4, P5, P6, P7, P8, P9, P10, P11, P12, P13, P14, P15, ), O>::configs_view(&t)->configs[10] == t.10.configs_view(),
        IntoSystemConfigs::<(SystemConfigTupleMarker, P0, P1, P2, P3, P4, P5, P6, P7, P8, P9, P10, P11, P12, P13, P14, P15, ), O>::configs_view(&t)->configs[11] == t.11.configs_view(),
        IntoSystemConfigs::<(SystemConfigTupleMarker, P0, P1, P2, P3, P4, P5, P6, P7, P8, P9, P10, P11, P12, P13, P14, P15, ), O>::configs_view(&t)->configs[12] == t.12.configs_view(),
        IntoSystemConfigs::<(SystemConfigTupleMarker, P0, P1, P2, P3, P4, P5, P6, P7, P8, P9, P10, P11, P12, P13, P14, P15, ), O>::configs_view(&t)->configs[13] == t.13.configs_view(),
        IntoSystemConfigs::<(SystemConfigTupleMarker, P0, P1, P2, P3, P4, P5, P6, P7, P8, P9, P10, P11, P12, P13, P14, P15, ), O>::configs_view(&t)->configs[14] == t.14.configs_view(),
        IntoSystemConfigs::<(SystemConfigTupleMarker, P0, P1, P2, P3, P4, P5, P6, P7, P8, P9, P10, P11, P12, P13, P14, P15, ), O>::configs_view(&t)->configs[15] == t.15.configs_view(),
        IntoSystemConfigs::<(SystemConfigTupleMarker, P0, P1, P2, P3, P4, P5, P6, P7, P8, P9, P10, P11, P12, P13, P14, P15, ), O>::configs_view(&t)->collective_conditions.len() == 0,
        IntoSystemConfigs::<(SystemConfigTupleMarker, P0, P1, P2, P3, P4, P5, P6, P7, P8, P9, P10, P11, P12, P13, P14, P15, ), O>::configs_view(&t)->chained is Unchained,
{
}

/// A tuple of 17 system configuration(s) converts into a collection whose elements
/// are the components' configurations in component order, with no collective
/// conditions and no chaining.
pub proof fn law_system_tuple_17_in_order<O, P0, S0: IntoSystemConfigs<P0, O>, P1, S1: IntoSystemConfigs<P1, O>, P2, S2: IntoSystemConfigs<P2, O>, P3, S3: IntoSystemConfigs<P3, O>, P4, S4: IntoSystemConfigs<P4, O>, P5, S5: IntoSystemConfigs<P5, O>, P6, S6: IntoSystemConfigs<P6, O>, P7, S7: IntoSystemConfigs<P7, O>, P8, S8: IntoSystemConfigs<P8, O>, P9, S9: IntoSystemConfigs<P9, O>, P10, S10: IntoSystemConfigs<P10, O>, P11, S11: IntoSystemConfigs<P11, O>, P12, S12: IntoSystemConfigs<P12, O>, P13, S13: IntoSystemConfigs<P13, O>, P14, S14: IntoSystemConfigs<P14, O>, P15, S15: IntoSystemConfigs<P15, O>, P16, S16: IntoSystemConfigs<P16, O>>(t: (S0, S1, S2, S3, S4, S5, S6, S7, S8, S9, S10, S11, S12, S13, S14, S15, S16, ))
    ensures
        IntoSystemConfigs::<(SystemConfigTupleMarker, P0, P1, P2, P3, P4, P5, P6, P7, P8, P9, P10, P11, P12, P13, P14, P15, P16, ), O>::configs_view(&t) is Configs,
        IntoSystemConfigs::<(SystemConfigTupleMarker, P0, P1, P2, P3, P4, P5, P6, P7, P8, P9, P10, P11, P12, P13, P14, P15, P16, ), O>::configs_view(&t)->configs.len() == 17,
        IntoSystemConfigs::<(SystemConfigTupleMarker, P0, P1, P2, P3, P4, P5, P6, P7, P8, P9, P10, P11, P12, P13, P14, P15, P16, ), O>::configs_view(&t)->configs[0] == t.0.configs_view(),
        IntoSystemConfigs::<(SystemConfigTupleMarker, P0, P1, P2, P3, P4, P5, P6, P7, P8, P9, P10, P11, P12, P13, P14, P15, P16, ), O>::configs_view(&t)->configs[1] == t.1.configs_view(),
        IntoSystemConfigs::<(SystemConfigTupleMarker, P0, P1, P2, P3, P4, P5, P6, P7, P8, P9, P10, P11, P12, P13, P14, P15, P16, ), O>::configs_view(&t)->configs[2] == t.2.configs_view(),
        IntoSystemConfigs::<(SystemConfigTupleMarker, P0, P1, P2, P3, P4, P5, P6, P7, P8, P9, P10, P11, P12, P13, P14, P15, P16, ), O>::configs_view(&t)->configs[3] == t.3.configs_view(),
        IntoSystemConfigs::<(SystemConfigTupleMarker, P0, P1, P2, P3, P4, P5, P6, P7, P8, P9, P10, P11, P12, P13, P14, P15, P16, ), O>::configs_view(&t)->configs[4] == t.4.configs_view(),
        IntoSystemConfigs::<(SystemConfigTupleMarker, P0, P1, P2, P3, P4, P5, P6, P7, P8, P9, P10, P11, P12, P13, P14, P15, P16, ), O>::configs_view(&t)->configs[5] == t.5.configs_view(),
        IntoSystemConfigs::<(SystemConfigTupleMarker, P0, P1, P2, P3, P4, P5, P6, P7, P8, P9, P10, P11, P12, P13, P14, P15, P16, ), O>::configs_view(&t)->configs[6] == t.6.configs_view(),
        IntoSystemConfigs::<(SystemConfigTupleMarker, P0, P1, P2, P3, P4, P5, P6, P7, P8, P9, P10, P11, P12, P13, P14, P15, P16, ), O>::configs_view(&t)->configs[7] == t.7.configs_view(),
        IntoSystemConfigs::<(SystemConfigTupleMarker, P0, P1, P2, P3, P4, P5, P6, P7, P8, P9, P10, P11, P12, P13, P14, P15, P16, ), O>::configs_view(&t)->configs[8] == t.8.configs_view(),
        IntoSystemConfigs::<(SystemConfigTupleMarker, P0, P1, P2, P3, P4, P5, P6, P7, P8, P9, P10, P11, P12, P13, P14, P15, P16, ), O>::configs_view(&t)->configs[9] == t.9.configs_view(),
        IntoSystemConfigs::<(SystemConfigTupleMarker, P0, P1, P2, P3, P4, P5, P6, P7, P8, P9, P10, P11, P12, P13, P14, P15, P16, ), O>::configs_view(&t)->configs[10] == t.10.configs_view(),
        IntoSystemConfigs::<(SystemConfigTupleMarker, P0, P1, P2, P3, P4, P5, P6, P7, P8, P9, P10, P11, P12, P13, P14, P15, P16, ), O>::configs_view(&t)->configs[11] == t.11.configs_view(),
        IntoSystemConfigs::<(SystemConfigTupleMarker, P0, P1, P2, P3, P4, P5, P6, P7, P8, P9, P10, P11, P12, P13, P14, P15, P16, ), O>::configs_view(&t)->configs[12] == t.12.configs_view(),
        IntoSystemConfigs::<(SystemConfigTupleMarker, P0, P1, P2, P3, P4, P5, P6, P7, P8, P9, P10, P11, P12, P13, P14, P15, P16, ), O>::configs_view(&t)->configs[13] == t.13.configs_view(),
        IntoSystemConfigs::<(SystemConfigTupleMarker, P0, P1, P2, P3, P4, P5, P6, P7, P8, P9, P10, P11, P12, P13, P14, P15, P16, ), O>::configs_view(&t)->configs[14] == t.14.configs_view(),
        IntoSystemConfigs::<(SystemConfigTupleMarker, P0, P1, P2, P3, P4, P5, P6, P7, P8, P9, P10, P11, P12, P13, P14, P15, P16, ), O>::configs_view(&t)->configs[15] == t.15.configs_view(),
        IntoSystemConfigs::<(SystemConfigTupleMarker, P0, P1, P2, P3, P4, P5, P6, P7, P8, P9, P10, P11, P12, P13, P14, P15, P16, ), O>::configs_view(&t)->configs[16] == t.16.configs_view(),
        IntoSystemConfigs::<(SystemConfigTupleMarker, P0, P1, P2, P3, P4, P5, P6, P7, P8, P9, P10, P11, P12, P13, P14, P15, P16, ), O>::configs_view(&t)->collective_conditions.len() == 0,
        IntoSystemConfigs::<(SystemConfigTupleMarker, P0, P1, P2, P3, P4, P5, P6, P7, P8, P9, P10, P11, P12, P13, P14, P15, P16, ), O>::configs_view(&t)->chained is Unchained,
{
}

/// A tuple of 18 system configuration(s) converts into a collection whose elements
/// are the components' configurations in component order, with no collective
/// conditions and no chaining.
pub proof fn law_system_tuple_18_in_order<O, P0, S0: IntoSystemConfigs<P0, O>, P1, S1: IntoSystemConfigs<P1, O>, P2, S2: IntoSystemConfigs<P2, O>, P3, S3: IntoSystemConfigs<P3, O>, P4, S4: IntoSystemConfigs<P4, O>, P5, S5: IntoSystemConfigs<P5, O>, P6, S6: IntoSystemConfigs<P6, O>, P7, S7: IntoSystemConfigs<P7, O>, P8, S8: IntoSystemConfigs<P8, O>, P9, S9: IntoSystemConfigs<P9, O>, P10, S10: IntoSystemConfigs<P10, O>, P11, S11: IntoSystemConfigs<P11, O>, P12, S12: IntoSystemConfigs<P12, O>, P13, S13: IntoSystemConfigs<P13, O>, P14, S14: IntoSystemConfigs<P14, O>, P15, S15: IntoSystemConfigs<P15, O>, P16, S16: IntoSystemConfigs<P16, O>, P17, S17: IntoSystemConfigs<P17, O>>(t: (S0, S1, S2, S3, S4, S5, S6, S7, S8, S9, S10, S11, S12, S13, S14, S15, S16, S17, ))
    ensures
        IntoSystemConfigs::<(SystemConfigTupleMarker, P0, P1, P2, P3, P4, P5, P6, P7, P8, P9, P10, P11, P12, P13, P14, P15, P16, P17, ), O>::configs_view(&t) is Configs,
        IntoSystemConfigs::<(SystemConfigTupleMarker, P0, P1, P2, P3, P4, P5, P6, P7, P8, P9, P10, P11, P12, P13, P14, P15, P16, P17, ), O>::configs_view(&t)->configs.len() == 18,
        IntoSystemConfigs::<(SystemConfigTupleMarker, P0, P1, P2, P3, P4, P5, P6, P7, P8, P9, P10, P11, P12, P13, P14, P15, P16, P17, ), O>::configs_view(&t)->configs[0] == t.0.configs_view(),
        IntoSystemConfigs::<(SystemConfigTupleMarker, P0, P1, P2, P3, P4, P5, P6, P7, P8, P9, P10, P11, P12, P13, P14, P15, P16, P17, ), O>::configs_view(&t)->configs[1] == t.1.configs_view(),
        IntoSystemConfigs::<(SystemConfigTupleMarker, P0, P1, P2, P3, P4, P5, P6, P7, P8, P9, P10, P11, P12, P13, P14, P15, P16, P17, ), O>::configs_view(&t)->configs[2] == t.2.configs_view(),
        IntoSystemConfigs::<(SystemConfigTupleMarker, P0, P1, P2, P3, P4, P5, P6, P7, P8, P9, P10, P11, P12, P13, P14, P15, P16, P17, ), O>::configs_view(&t)->configs[3] == t.3.configs_view(),
        IntoSystemConfigs::<(SystemConfigTupleMarker, P0, P1, P2, P3, P4, P5, P6, P7, P8, P9, P10, P11, P12, P13, P14, P15, P16, P17, ), O>::configs_view(&t)->configs[4] == t.4.configs_view(),
        IntoSystemConfigs::<(SystemConfigTupleMarker, P0, P1, P2, P3, P4, P5, P6, P7, P8, P9, P10, P11, P12, P13, P14, P15, P16, P17, ), O>::configs_view(&t)->configs[5] == t.5.configs_view(),
        IntoSystemConfigs::<(SystemConfigTupleMarker, P0, P1, P2, P3, P4, P5, P6, P7, P8, P9, P10, P11, P12, P13, P14, P15, P16, P17, ), O>::configs_view(&t)->configs[6] == t.6.configs_view(),
        IntoSystemConfigs::<(SystemConfigTupleMarker, P0, P1, P2, P3, P4, P5, P6, P7, P8, P9, P10, P11, P12, P13, P14, P15, P16, P17, ), O>::configs_view(&t)->configs[7] == t.7.configs_view(),
        IntoSystemConfigs::<(SystemConfigTupleMarker, P0, P1, P2, P3, P4, P5, P6, P7, P8, P9, P10, P11, P12, P13, P14, P15, P16, P17, ), O>::configs_view(&t)->configs[8] == t.8.configs_view(),
        IntoSystemConfigs::<(SystemConfigTupleMarker, P0, P1, P2, P3, P4, P5, P6, P7, P8, P9, P10, P11, P12, P13, P14, P15, P16, P17, ), O>::configs_view(&t)->configs[9] == t.9.configs_view(),
        IntoSystemConfigs::<(SystemConfigTupleMarker, P0, P1, P2, P3, P4, P5, P6, P7, P8, P9, P10, P11, P12, P13, P14, P15, P16, P17, ), O>::configs_view(&t)->configs[10] == t.10.configs_view(),
        IntoSystemConfigs::<(SystemConfigTupleMarker, P0, P1, P2, P3, P4, P5, P6, P7, P8, P9, P10, P11, P12, P13, P14, P15, P16, P17, ), O>::configs_view(&t)->configs[11] == t.11.configs_view(),
        IntoSystemConfigs::<(SystemConfigTupleMarker, P0, P1, P2, P3, P4, P5, P6, P7, P8, P9, P10, P11, P12, P13, P14, P15, P16, P17, ), O>::configs_view(&t)->configs[12] == t.12.configs_view(),
        IntoSystemConfigs::<(SystemConfigTupleMarker, P0, P1, P2, P3, P4, P5, P6, P7, P8, P9, P10, P11, P12, P13, P14, P15, P16, P17, ), O>::configs_view(&t)->configs[13] == t.13.configs_view(),
        IntoSystemConfigs::<(SystemConfigTupleMarker, P0, P1, P2, P3, P4, P5, P6, P7, P8, P9, P10, P11, P12, P13, P14, P15, P16, P17, ), O>::configs_view(&t)->configs[14] == t.14.configs_view(),
        IntoSystemConfigs::<(SystemConfigTupleMarker, P0, P1, P2, P3, P4, P5, P6, P7, P8, P9, P10, P11, P12, P13, P14, P15, P16, P17, ), O>::configs_view(&t)->configs[15] == t.15.configs_view(),
        IntoSystemConfigs::<(SystemConfigTupleMarker, P0, P1, P2, P3, P4, P5, P6, P7, P8, P9, P10, P11, P12, P13, P14, P15, P16, P17, ), O>::configs_view(&t)->configs[16] == t.16.configs_view(),
        IntoSystemConfigs::<(SystemConfigTupleMarker, P0, P1, P2, P3, P4, P5, P6, P7, P8, P9, P10, P11, P12, P13, P14, P15, P16, P17, ), O>::configs_view(&t)->configs[17] == t.17.configs_view(),
        IntoSystemConfigs::<(SystemConfigTupleMarker, P0, P1, P2, P3, P4, P5, P6, P7, P8, P9, P10, P11, P12, P13, P14, P15, P16, P17, ), O>::configs_view(&t)->collective_conditions.len() == 0,
        IntoSystemConfigs::<(SystemConfigTupleMarker, P0, P1, P2, P3, P4, P5, P6, P7, P8, P9, P10, P11, P12, P13, P14, P15, P16, P17, ), O>::configs_view(&t)->chained is Unchained,
{
}

/// A tuple of 19 system configuration(s) converts into a collection whose elements
/// are the components' configurations in component order, with no collective
/// conditions and no chaining.
pub proof fn law_system_tuple_19_in_order<O, P0, S0: IntoSystemConfigs<P0, O>, P1, S1: IntoSystemConfigs<P1, O>, P2, S2: IntoSystemConfigs<P2, O>, P3, S3: IntoSystemConfigs<P3, O>, P4, S4: IntoSystemConfigs<P4, O>, P5, S5: IntoSystemConfigs<P5, O>, P6, S6: IntoSystemConfigs<P6, O>, P7, S7: IntoSystemConfigs<P7, O>, P8, S8: IntoSystemConfigs<P8, O>, P9, S9: IntoSystemConfigs<P9, O>, P10, S10: IntoSystemConfigs<P10, O>, P11, S11: IntoSystemConfigs<P11, O>, P12, S12: IntoSystemConfigs<P12, O>, P13, S13: IntoSystemConfigs<P13, O>, P14, S14: IntoSystemConfigs<P14, O>, P15, S15: IntoSystemConfigs<P15, O>, P16, S16: IntoSystemConfigs<P16, O>, P17, S17: IntoSystemConfigs<P17, O>, P18, S18: IntoSystemConfigs<P18, O>>(t: (S0, S1, S2, S3, S4, S5, S6, S7, S8, S9, S10, S11, S12, S13, S14, S15, S16, S17, S18, ))
    ensures
        IntoSystemConfigs::<(SystemConfigTupleMarker, P0, P1, P2, P3, P4, P5, P6, P7, P8, P9, P10, P11, P12, P13, P14, P15, P16, P17, P18, ), O>::configs_view(&t) is Configs,
        IntoSystemConfigs::<(SystemConfigTupleMarker, P0, P1, P2, P3, P4, P5, P6, P7, P8, P9, P10, P11, P12, P13, P14, P15, P16, P17, P18, ), O>::configs_view(&t)->configs.len() == 19,
        IntoSystemConfigs::<(SystemConfigTupleMarker, P0, P1, P2, P3, P4, P5, P6, P7, P8, P9, P10, P11, P12, P13, P14, P15, P16, P17, P18, ), O>::configs_view(&t)->configs[0] == t.0.configs_view(),
        IntoSystemConfigs::<(SystemConfigTupleMarker, P0, P1, P2, P3, P4, P5, P6, P7, P8, P9, P10, P11, P12, P13, P14, P15, P16, P17, P18, ), O>::configs_view(&t)->configs[1] == t.1.configs_view(),
        IntoSystemConfigs::<(SystemConfigTupleMarker, P0, P1, P2, P3, P4, P5, P6, P7, P8, P9, P10, P11, P12, P13, P14, P15, P16, P17, P18, ), O>::configs_view(&t)->configs[2] == t.2.configs_view(),
        IntoSystemConfigs::<(SystemConfigTupleMarker, P0, P1, P2, P3, P4, P5, P6, P7, P8, P9, P10, P11, P12, P13, P14, P15, P16, P17, P18, ), O>::configs_view(&t)->configs[3] == t.3.configs_view(),
        IntoSystemConfigs::<(SystemConfigTupleMarker, P0, P1, P2, P3, P4, P5, P6, P7, P8, P9, P10, P11, P12, P13, P14, P15, P16, P17, P18, ), O>::configs_view(&t)->configs[4] == t.4.configs_view(),
        IntoSystemConfigs::<(SystemConfigTupleMarker, P0, P1, P2, P3, P4, P5, P6, P7, P8, P9, P10, P11, P12, P13, P14, P15, P16, P17, P18, ), O>::configs_view(&t)->configs[5] == t.5.configs_view(),
        IntoSystemConfigs::<(SystemConfigTupleMarker, P0, P1, P2, P3, P4, P5, P6, P7, P8, P9, P10, P11, P12, P13, P14, P15, P16, P17, P18, ), O>::configs_view(&t)->configs[6] == t.6.configs_view(),
        IntoSystemConfigs::<(SystemConfigTupleMarker, P0, P1, P2, P3, P4, P5, P6, P7, P8, P9, P10, P11, P12, P13, P14, P15, P16, P17, P18, ), O>::configs_view(&t)->configs[7] == t.7.configs_view(),
        IntoSystemConfigs::<(SystemConfigTupleMarker, P0, P1, P2, P3, P4, P5, P6, P7, P8, P9, P10, P11, P12, P13, P14, P15, P16, P17, P18, ), O>::configs_view(&t)->configs[8] == t.8.configs_view(),
        IntoSystemConfigs::<(SystemConfigTupleMarker, P0, P1, P2, P3, P4, P5, P6, P7, P8, P9, P10, P11, P12, P13, P14, P15, P16, P17, P18, ), O>::configs_view(&t)->configs[9] == t.9.configs_view(),
        IntoSystemConfigs::<(SystemConfigTupleMarker, P0, P1, P2, P3, P4, P5, P6, P7, P8, P9, P10, P11, P12, P13, P14, P15, P16, P17, P18, ), O>::configs_view(&t)->configs[10] == t.10.configs_view(),
        IntoSystemConfigs::<(SystemConfigTupleMarker, P0, P1, P2, P3, P4, P5, P6, P7, P8, P9, P10, P11, P12, P13, P14, P15, P16, P17, P18, ), O>::configs_view(&t)->configs[11] == t.11.configs_view(),
        IntoSystemConfigs::<(SystemConfigTupleMarker, P0, P1, P2, P3, P4, P5, P6, P7, P8, P9, P10, P11, P12, P13, P14, P15, P16, P17, P18, ), O>::configs_view(&t)->configs[12] == t.12.configs_view(),
        IntoSystemConfigs::<(SystemConfigTupleMarker, P0, P1, P2, P3, P4, P5, P6, P7, P8, P9, P10, P11, P12, P13, P14, P15, P16, P17, P18, ), O>::configs_view(&t)->configs[13] == t.13.configs_view(),
        IntoSystemConfigs::<(SystemConfigTupleMarker, P0, P1, P2, P3, P4, P5, P6, P7, P8, P9, P10, P11, P12, P13, P14, P15, P16, P17, P18, ), O>::configs_view(&t)->configs[14] == t.14.configs_view(),
        IntoSystemConfigs::<(SystemConfigTupleMarker, P0, P1, P2, P3, P4, P5, P6, P7, P8, P9, P10, P11, P12, P13, P14, P15, P16, P17, P18, ), O>::configs_view(&t)->configs[15] == t.15.configs_view(),
        IntoSystemConfigs::<(SystemConfigTupleMarker, P0, P1, P2, P3, P4, P5, P6, P7, P8, P9, P10, P11, P12, P13, P14, P15, P16, P17, P18, ), O>::configs_view(&t)->configs[16] == t.16.configs_view(),
        IntoSystemConfigs::<(SystemConfigTupleMarker, P0, P1, P2, P3, P4, P5, P6, P7, P8, P9, P10, P11, P12, P13, P14, P15, P16, P17, P18, ), O>::configs_view(&t)->configs[17] == t.17.configs_view(),
        IntoSystemConfigs::<(SystemConfigTupleMarker, P0, P1, P2, P3, P4, P5, P6, P7, P8, P9, P10, P11, P12, P13, P14, P15, P16, P17, P18, ), O>::configs_view(&t)->configs[18] == t.18.configs_view(),
        IntoSystemConfigs::<(SystemConfigTupleMarker, P0, P1, P2, P3, P4, P5, P6, P7, P8, P9, P10, P11, P12, P13, P14, P15, P16, P17, P18, ), O>::configs_view(&t)->collective_conditions.len() == 0,
        IntoSystemConfigs::<(SystemConfigTupleMarker, P0, P1, P2, P3, P4, P5, P6, P7, P8, P9, P10, P11, P12, P13, P14, P15, P16, P17, P18, ), O>::configs_view(&t)->chained is Unchained,
{
}

/// A tuple of 20 system configuration(s) converts into a collection whose elements
/// are the components' configurations in component order, with no collective
/// conditions and no chaining.
pub proof fn law_system_tuple_20_in_order<O, P0, S0: IntoSystemConfigs<P0, O>, P1, S1: IntoSystemConfigs<P1, O>, P2, S2: IntoSystemConfigs<P2, O>, P3, S3: IntoSystemConfigs<P3, O>, P4, S4: IntoSystemConfigs<P4, O>, P5, S5: IntoSystemConfigs<P5, O>, P6, S6: IntoSystemConfigs<P6, O>, P7, S7: IntoSystemConfigs<P7, O>, P8, S8: IntoSystemConfigs<P8, O>, P9, S9: IntoSystemConfigs<P9, O>, P10, S10: IntoSystemConfigs<P10, O>, P11, S11: IntoSystemConfigs<P11, O>, P12, S12: IntoSystemConfigs<P12, O>, P13, S13: IntoSystemConfigs<P13, O>, P14, S14: IntoSystemConfigs<P14, O>, P15, S15: IntoSystemConfigs<P15, O>, P16, S16: IntoSystemConfigs<P16, O>, P17, S17: IntoSystemConfigs<P17, O>, P18, S18: IntoSystemConfigs<P18, O>, P19, S19: IntoSystemConfigs<P19, O>>(t: (S0, S1, S2, S3, S4, S5, S6, S7, S8, S9, S10, S11, S12, S13, S14, S15, S16, S17, S18, S19, ))
    ensures
        IntoSystemConfigs::<(SystemConfigTupleMarker, P0, P1, P2, P3, P4, P5, P6, P7, P8, P9, P10, P11, P12, P13, P14, P15, P16, P17, P18, P19, ), O>::configs_view(&t) is Configs,
        IntoSystemConfigs::<(SystemConfigTupleMarker, P0, P1, P2, P3, P4, P5, P6, P7, P8, P9, P10, P11, P12, P13, P14, P15, P16, P17, P18, P19, ), O>::configs_view(&t)->configs.len() == 20,
        IntoSystemConfigs::<(SystemConfigTupleMarker, P0, P1, P2, P3, P4, P5, P6, P7, P8, P9, P10, P11, P12, P13, P14, P15, P16, P17, P18, P19, ), O>::configs_view(&t)->configs[0] == t.0.configs_view(),
        IntoSystemConfigs::<(SystemConfigTupleMarker, P0, P1, P2, P3, P4, P5, P6, P7, P8, P9, P10, P11, P12, P13, P14, P15, P16, P17, P18, P19, ), O>::configs_view(&t)->configs[1] == t.1.configs_view(),
        IntoSystemConfigs::<(SystemConfigTupleMarker, P0, P1, P2, P3, P4, P5, P6, P7, P8, P9, P10, P11, P12, P13, P14, P15, P16, P17, P18, P19, ), O>::configs_view(&t)->configs[2] == t.2.configs_view(),
        IntoSystemConfigs::<(SystemConfigTupleMarker, P0, P1, P2, P3, P4, P5, P6, P7, P8, P9, P10, P11, P12, P13, P14, P15, P16, P17, P18, P19, ), O>::configs_view(&t)->configs[3] == t.3.configs_view(),
        IntoSystemConfigs::<(SystemConfigTupleMarker, P0, P1, P2, P3, P4, P5, P6, P7, P8, P9, P10, P11, P12, P13, P14, P15, P16, P17, P18, P19, ), O>::configs_view(&t)->configs[4] == t.4.configs_view(),
        IntoSystemConfigs::<(SystemConfigTupleMarker, P0, P1, P2, P3, P4, P5, P6, P7, P8, P9, P10, P11, P12, P13, P14, P15, P16, P17, P18, P19, ), O>::configs_view(&t)->configs[5] == t.5.configs_view(),
        IntoSystemConfigs::<(SystemConfigTupleMarker, P0, P1, P2, P3, P4, P5, P6, P7, P8, P9, P10, P11, P12, P13, P14, P15, P16, P17, P18, P19, ), O>::configs_view(&t)->configs[6] == t.6.configs_view(),
        IntoSystemConfigs::<(SystemConfigTupleMarker, P0, P1, P2, P3, P4, P5, P6, P7, P8, P9, P10, P11, P12, P13, P14, P15, P16, P17, P18, P19, ), O>::configs_view(&t)->configs[7] == t.7.configs_view(),
        IntoSystemConfigs::<(SystemConfigTupleMarker, P0, P1, P2, P3, P4, P5, P6, P7, P8, P9, P10, P11, P12, P13, P14, P15, P16, P17, P18, P19, ), O>::configs_view(&t)->configs[8] == t.8.configs_view(),
        IntoSystemConfigs::<(SystemConfigTupleMarker, P0, P1, P2, P3, P4, P5, P6, P7, P8, P9, P10, P11, P12, P13, P14, P15, P16, P17, P18, P19, ), O>::configs_view(&t)->configs[9] == t.9.configs_view(),
        IntoSystemConfigs::<(SystemConfigTupleMarker, P0, P1, P2, P3, P4, P5, P6, P7, P8, P9, P10, P11, P12, P13, P14, P15, P16, P17, P18, P19, ), O>::configs_view(&t)->configs[10] == t.10.configs_view(),
        IntoSystemConfigs::<(SystemConfigTupleMarker, P0, P1, P2, P3, P4, P5, P6, P7, P8, P9, P10, P11, P12, P13, P14, P15, P16, P17, P18, P19, ), O>::configs_view(&t)->configs[11] == t.11.configs_view(),
        IntoSystemConfigs::<(SystemConfigTupleMarker, P0, P1, P2, P3, P4, P5, P6, P7, P8, P9, P10, P11, P12, P13, P14, P15, P16, P17, P18, P19, ), O>::configs_view(&t)->configs[12] == t.12.configs_view(),
        IntoSystemConfigs::<(SystemConfigTupleMarker, P0, P1, P2, P3, P4, P5, P6, P7, P8, P9, P10, P11, P12, P13, P14, P15, P16, P17, P18, P19, ), O>::configs_view(&t)->configs[13] == t.13.configs_view(),
        IntoSystemConfigs::<(SystemConfigTupleMarker, P0, P1, P2, P3, P4, P5, P6, P7, P8, P9, P10, P11, P12, P13, P14, P15, P16, P17, P18, P19, ), O>::configs_view(&t)->configs[14] == t.14.configs_view(),
        IntoSystemConfigs::<(SystemConfigTupleMarker, P0, P1, P2, P3, P4, P5, P6, P7, P8, P9, P10, P11, P12, P13, P14, P15, P16, P17, P18, P19, ), O>::configs_view(&t)->configs[15] == t.15.configs_view(),
        IntoSystemConfigs::<(SystemConfigTupleMarker, P0, P1, P2, P3, P4, P5, P6, P7, P8, P9, P10, P11, P12, P13, P14, P15, P16, P17, P18, P19, ), O>::configs_view(&t)->configs[16] == t.16.configs_view(),
        IntoSystemConfigs::<(SystemConfigTupleMarker, P0, P1, P2, P3, P4, P5, P6, P7, P8, P9, P10, P11, P12, P13, P14, P15, P16, P17, P18, P19, ), O>::configs_view(&t)->configs[17] == t.17.configs_view(),
        IntoSystemConfigs::<(SystemConfigTupleMarker, P0, P1, P2, P3, P4, P5, P6, P7, P8, P9, P10, P11, P12, P13, P14, P15, P16, P17, P18, P19, ), O>::configs_view(&t)->configs[18] == t.18.configs_view(),
        IntoSystemConfigs::<(SystemConfigTupleMarker, P0, P1, P2, P3, P4, P5, P6, P7, P8, P9, P10, P11, P12, P13, P14, P15, P16, P17, P18, P19, ), O>::configs_view(&t)->configs[19] == t.19.configs_view(),
        IntoSystemConfigs::<(SystemConfigTupleMarker, P0, P1, P2, P3, P4, P5, P6, P7, P8, P9, P10, P11, P12, P13, P14, P15, P16, P17, P18, P19, ), O>::configs_view(&t)->collective_conditions.len() == 0,
        IntoSystemConfigs::<(SystemConfigTupleMarker, P0, P1, P2, P3, P4, P5, P6, P7, P8, P9, P10, P11, P12, P13, P14, P15, P16, P17, P18, P19, ), O>::configs_view(&t)->chained is Unchained,
{
}

/// A tuple of 1 system set configuration(s) converts into a collection whose
/// elements are the components' configurations in component order, with no
/// collective conditions and no chaining.
pub proof fn law_set_tuple_1_in_order<O, S0: IntoSystemSetConfigs<O>>(t: (S0, ))
    ensures
        IntoSystemSetConfigs::<O>::set_configs_view(&t) is Configs,
        IntoSystemSetConfigs::<O>::set_configs_view(&t)->configs.len() == 1,
        IntoSystemSetConfigs::<O>::set_configs_view(&t)->configs[0] == t.0.set_configs_view(),
        IntoSystemSetConfigs::<O>::set_configs_view(&t)->collective_conditions.len() == 0,
        IntoSystemSetConfigs::<O>::set_configs_view(&t)->chained is Unchained,
{
}

/// A tuple of 2 system set configuration(s) converts into a collection whose
/// elements are the components' configurations in component order, with no
/// collective conditions and no chaining.
pub proof fn law_set_tuple_2_in_order<O, S0: IntoSystemSetConfigs<O>, S1: IntoSystemSetConfigs<O>>(t: (S0, S1, ))
    ensures
        IntoSystemSetConfigs::<O>::set_configs_view(&t) is Configs,
        IntoSystemSetConfigs::<O>::set_configs_view(&t)->configs.len() == 2,
        IntoSystemSetConfigs::<O>::set_configs_view(&t)->configs[0] == t.0.set_configs_view(),
        IntoSystemSetConfigs::<O>::set_configs_view(&t)->configs[1] == t.1.set_configs_view(),
        IntoSystemSetConfigs::<O>::set_configs_view(&t)->collective_conditions.len() == 0,
        IntoSystemSetConfigs::<O>::set_configs_view(&t)->chained is Unchained,
{
}

/// A tuple of 3 system set configuration(s) converts into a collection whose
/// elements are the components' configurations in component order, with no
/// collective conditions and no chaining.
pub proof fn law_set_tuple_3_in_order<O, S0: IntoSystemSetConfigs<O>, S1: IntoSystemSetConfigs<O>, S2: IntoSystemSetConfigs<O>>(t: (S0, S1, S2, ))
    ensures
        IntoSystemSetConfigs::<O>::set_configs_view(&t) is Configs,
        IntoSystemSetConfigs::<O>::set_configs_view(&t)->configs.len() == 3,
        IntoSystemSetConfigs::<O>::set_configs_view(&t)->configs[0] == t.0.set_configs_view(),
        IntoSystemSetConfigs::<O>::set_configs_view(&t)->configs[1] == t.1.set_configs_view(),
        IntoSystemSetConfigs::<O>::set_configs_view(&t)->configs[2] == t.2.set_configs_view(),
        IntoSystemSetConfigs::<O>::set_configs_view(&t)->collective_conditions.len() == 0,
        IntoSystemSetConfigs::<O>::set_configs_view(&t)->chained is Unchained,
{
}

/// A tuple of 4 system set configuration(s) converts into a collection whose
/// elements are the components' configurations in component order, with no
/// collective conditions and no chaining.
pub proof fn law_set_tuple_4_in_order<O, S0: IntoSystemSetConfigs<O>, S1: IntoSystemSetConfigs<O>, S2: IntoSystemSetConfigs<O>, S3: IntoSystemSetConfigs<O>>(t: (S0, S1, S2, S3, ))
    ensures
        IntoSystemSetConfigs::<O>::set_configs_view(&t) is Configs,
        IntoSystemSetConfigs::<O>::set_configs_view(&t)->configs.len() == 4,
        IntoSystemSetConfigs::<O>::set_configs_view(&t)->configs[0] == t.0.set_configs_view(),
        IntoSystemSetConfigs::<O>::set_configs_view(&t)->configs[1] == t.1.set_configs_view(),
        IntoSystemSetConfigs::<O>::set_configs_view(&t)->configs[2] == t.2.set_configs_view(),
        IntoSystemSetConfigs::<O>::set_configs_view(&t)->configs[3] == t.3.set_configs_view(),
        IntoSystemSetConfigs::<O>::set_configs_view(&t)->collective_conditions.len() == 0,
        IntoSystemSetConfigs::<O>::set_configs_view(&t)->chained is Unchained,
{
}

/// A tuple of 5 system set configuration(s) converts into a collection whose
/// elements are the components' configurations in component order, with no
/// collective conditions and no chaining.
pub proof fn law_set_tuple_5_in_order<O, S0: IntoSystemSetConfigs<O>, S1: IntoSystemSetConfigs<O>, S2: IntoSystemSetConfigs<O>, S3: IntoSystemSetConfigs<O>, S4: IntoSystemSetConfigs<O>>(t: (S0, S1, S2, S3, S4, ))
    ensures
        IntoSystemSetConfigs::<O>::set_configs_view(&t) is Configs,
        IntoSystemSetConfigs::<O>::set_configs_view(&t)->configs.len() == 5,
        IntoSystemSetConfigs::<O>::set_configs_view(&t)->configs[0] == t.0.set_configs_view(),
        IntoSystemSetConfigs::<O>::set_configs_view(&t)->configs[1] == t.1.set_configs_view(),
        IntoSystemSetConfigs::<O>::set_configs_view(&t)->configs[2] == t.2.set_configs_view(),
        IntoSystemSetConfigs::<O>::set_configs_view(&t)->configs[3] == t.3.set_configs_view(),
        IntoSystemSetConfigs::<O>::set_configs_view(&t)->configs[4] == t.4.set_configs_view(),
        IntoSystemSetConfigs::<O>::set_configs_view(&t)->collective_conditions.len() == 0,
        IntoSystemSetConfigs::<O>::set_configs_view(&t)->chained is Unchained,
{
}

/// A tuple of 6 system set configuration(s) converts into a collection whose
/// elements are the components' configurations in component order, with no
/// collective conditions and no chaining.
pub proof fn law_set_tuple_6_in_order<O, S0: IntoSystemSetConfigs<O>, S1: IntoSystemSetConfigs<O>, S2: IntoSystemSetConfigs<O>, S3: IntoSystemSetConfigs<O>, S4: IntoSystemSetConfigs<O>, S5: IntoSystemSetConfigs<O>>(t: (S0, S1, S2, S3, S4, S5, ))
    ensures
        IntoSystemSetConfigs::<O>::set_configs_view(&t) is Configs,
        IntoSystemSetConfigs::<O>::set_configs_view(&t)->configs.len() == 6,
        IntoSystemSetConfigs::<O>::set_configs_view(&t)->configs[0] == t.0.set_configs_view(),
        IntoSystemSetConfigs::<O>::set_configs_view(&t)->configs[1] == t.1.set_configs_view(),
        IntoSystemSetConfigs::<O>::set_configs_view(&t)->configs[2] == t.2.set_configs_view(),
        IntoSystemSetConfigs::<O>::set_configs_view(&t)->configs[3] == t.3.set_configs_view(),
        IntoSystemSetConfigs::<O>::set_configs_view(&t)->configs[4] == t.4.set_configs_view(),
        IntoSystemSetConfigs::<O>::set_configs_view(&t)->configs[5] == t.5.set_configs_view(),
        IntoSystemSetConfigs::<O>::set_configs_view(&t)->collective_conditions.len() == 0,
        IntoSystemSetConfigs::<O>::set_configs_view(&t)->chained is Unchained,
{
}

/// A tuple of 7 system set configuration(s) converts into a collection whose
/// elements are the components' configurations in component order, with no
/// collective conditions and no chaining.
pub proof fn law_set_tuple_7_in_order<O, S0: IntoSystemSetConfigs<O>, S1: IntoSystemSetConfigs<O>, S2: IntoSystemSetConfigs<O>, S3: IntoSystemSetConfigs<O>, S4: IntoSystemSetConfigs<O>, S5: IntoSystemSetConfigs<O>, S6: IntoSystemSetConfigs<O>>(t: (S0, S1, S2, S3, S4, S5, S6, ))
    ensures
        IntoSystemSetConfigs::<O>::set_configs_view(&t) is Configs,
        IntoSystemSetConfigs::<O>::set_configs_view(&t)->configs.len() == 7,
        IntoSystemSetConfigs::<O>::set_configs_view(&t)->configs[0] == t.0.set_configs_view(),
        IntoSystemSetConfigs::<O>::set_configs_view(&t)->configs[1] == t.1.set_configs_view(),
        IntoSystemSetConfigs::<O>::set_configs_view(&t)->configs[2] == t.2.set_configs_view(),
        IntoSystemSetConfigs::<O>::set_configs_view(&t)->configs[3] == t.3.set_configs_view(),
        IntoSystemSetConfigs::<O>::set_configs_view(&t)->configs[4] == t.4.set_configs_view(),
        IntoSystemSetConfigs::<O>::set_configs_view(&t)->configs[5] == t.5.set_configs_view(),
        IntoSystemSetConfigs::<O>::set_configs_view(&t)->configs[6] == t.6.set_configs_view(),
        IntoSystemSetConfigs::<O>::set_configs_view(&t)->collective_conditions.len() == 0,
        IntoSystemSetConfigs::<O>::set_configs_view(&t)->chained is Unchained,
{
}

/// A tuple of 8 system set configuration(s) converts into a collection whose
/// elements are the components' configurations in component order, with no
/// collective conditions and no chaining.
pub proof fn law_set_tuple_8_in_order<O, S0: IntoSystemSetConfigs<O>, S1: IntoSystemSetConfigs<O>, S2: IntoSystemSetConfigs<O>, S3: IntoSystemSetConfigs<O>, S4: IntoSystemSetConfigs<O>, S5: IntoSystemSetConfigs<O>, S6: IntoSystemSetConfigs<O>, S7: IntoSystemSetConfigs<O>>(t: (S0, S1, S2, S3, S4, S5, S6, S7, ))
    ensures
        IntoSystemSetConfigs::<O>::set_configs_view(&t) is Configs,
        IntoSystemSetConfigs::<O>::set_configs_view(&t)->configs.len() == 8,
        IntoSystemSetConfigs::<O>::set_configs_view(&t)->configs[0] == t.0.set_configs_view(),
        IntoSystemSetConfigs::<O>::set_configs_view(&t)->configs[1] == t.1.set_configs_view(),
        IntoSystemSetConfigs::<O>::set_configs_view(&t)->configs[2] == t.2.set_configs_view(),
        IntoSystemSetConfigs::<O>::set_configs_view(&t)->configs[3] == t.3.set_configs_view(),
        IntoSystemSetConfigs::<O>::set_configs_view(&t)->configs[4] == t.4.set_configs_view(),
        IntoSystemSetConfigs::<O>::set_configs_view(&t)->configs[5] == t.5.set_configs_view(),
        IntoSystemSetConfigs::<O>::set_configs_view(&t)->configs[6] == t.6.set_configs_view(),
        IntoSystemSetConfigs::<O>::set_configs_view(&t)->configs[7] == t.7.set_configs_view(),
        IntoSystemSetConfigs::<O>::set_configs_view(&t)->collective_conditions.len() == 0,
        IntoSystemSetConfigs::<O>::set_configs_view(&t)->chained is Unchained,
{
}

/// A tuple of 9 system set configuration(s) converts into a collection whose
/// elements are the components' configurations in component order, with no
/// collective conditions and no chaining.
pub proof fn law_set_tuple_9_in_order<O, S0: IntoSystemSetConfigs<O>, S1: IntoSystemSetConfigs<O>, S2: IntoSystemSetConfigs<O>, S3: IntoSystemSetConfigs<O>, S4: IntoSystemSetConfigs<O>, S5: IntoSystemSetConfigs<O>, S6: IntoSystemSetConfigs<O>, S7: IntoSystemSetConfigs<O>, S8: IntoSystemSetConfigs<O>>(t: (S0, S1, S2, S3, S4, S5, S6, S7, S8, ))
    ensures
        IntoSystemSetConfigs::<O>::set_configs_view(&t) is Configs,
        IntoSystemSetConfigs::<O>::set_configs_view(&t)->configs.len() == 9,
        IntoSystemSetConfigs::<O>::set_configs_view(&t)->configs[0] == t.0.set_configs_view(),
        IntoSystemSetConfigs::<O>::set_configs_view(&t)->configs[1] == t.1.set_configs_view(),
        IntoSystemSetConfigs::<O>::set_configs_view(&t)->configs[2] == t.2.set_configs_view(),
        IntoSystemSetConfigs::<O>::set_configs_view(&t)->configs[3] == t.3.set_configs_view(),
        IntoSystemSetConfigs::<O>::set_configs_view(&t)->configs[4] == t.4.set_configs_view(),
        IntoSystemSetConfigs::<O>::set_configs_view(&t)->configs[5] == t.5.set_configs_view(),
        IntoSystemSetConfigs::<O>::set_configs_view(&t)->configs[6] == t.6.set_configs_view(),
        IntoSystemSetConfigs::<O>::set_configs_view(&t)->configs[7] == t.7.set_configs_view(),
        IntoSystemSetConfigs::<O>::set_configs_view(&t)->configs[8] == t.8.set_configs_view(),
        IntoSystemSetConfigs::<O>::set_configs_view(&t)->collective_conditions.len() == 0,
        IntoSystemSetConfigs::<O>::set_configs_view(&t)->chained is Unchained,
{
}

/// A tuple of 10 system set configuration(s) converts into a collection whose
/// elements are the components' configurations in component order, with no
/// collective conditions and no chaining.
pub proof fn law_set_tuple_10_in_order<O, S0: IntoSystemSetConfigs<O>, S1: IntoSystemSetConfigs<O>, S2: IntoSystemSetConfigs<O>, S3: IntoSystemSetConfigs<O>, S4: IntoSystemSetConfigs<O>, S5: IntoSystemSetConfigs<O>, S6: IntoSystemSetConfigs<O>, S7: IntoSystemSetConfigs<O>, S8: IntoSystemSetConfigs<O>, S9: IntoSystemSetConfigs<O>>(t: (S0, S1, S2, S3, S4, S5, S6, S7, S8, S9, ))
    ensures
        IntoSystemSetConfigs::<O>::set_configs_view(&t) is Configs,
        IntoSystemSetConfigs::<O>::set_configs_view(&t)->configs.len() == 10,
        IntoSystemSetConfigs::<O>::set_configs_view(&t)->configs[0] == t.0.set_configs_view(),
        IntoSystemSetConfigs::<O>::set_configs_view(&t)->configs[1] == t.1.set_configs_view(),
        IntoSystemSetConfigs::<O>::set_configs_view(&t)->configs[2] == t.2.set_configs_view(),
        IntoSystemSetConfigs::<O>::set_configs_view(&t)->configs[3] == t.3.set_configs_view(),
        IntoSystemSetConfigs::<O>::set_configs_view(&t)->configs[4] == t.4.set_configs_view(),
        IntoSystemSetConfigs::<O>::set_configs_view(&t)->configs[5] == t.5.set_configs_view(),
        IntoSystemSetConfigs::<O>::set_configs_view(&t)->configs[6] == t.6.set_configs_view(),
        IntoSystemSetConfigs::<O>::set_configs_view(&t)->configs[7] == t.7.set_configs_view(),
        IntoSystemSetConfigs::<O>::set_configs_view(&t)->configs[8] == t.8.set_configs_view(),
        IntoSystemSetConfigs::<O>::set_configs_view(&t)->configs[9] == t.9.set_configs_view(),
        IntoSystemSetConfigs::<O>::set_configs_view(&t)->collective_conditions.len() == 0,
        IntoSystemSetConfigs::<O>::set_configs_view(&t)->chained is Unchained,
{
}

/// A tuple of 11 system set configuration(s) converts into a collection whose
/// elements are the components' configurations in component order, with no
/// collective conditions and no chaining.
pub proof fn law_set_tuple_11_in_order<O, S0: IntoSystemSetConfigs<O>, S1: IntoSystemSetConfigs<O>, S2: IntoSystemSetConfigs<O>, S3: IntoSystemSetConfigs<O>, S4: IntoSystemSetConfigs<O>, S5: IntoSystemSetConfigs<O>, S6: IntoSystemSetConfigs<O>, S7: IntoSystemSetConfigs<O>, S8: IntoSystemSetConfigs<O>, S9: IntoSystemSetConfigs<O>, S10: IntoSystemSetConfigs<O>>(t: (S0, S1, S2, S3, S4, S5, S6, S7, S8, S9, S10, ))
    ensures
        IntoSystemSetConfigs::<O>::set_configs_view(&t) is Configs,
        IntoSystemSetConfigs::<O>::set_configs_view(&t)->configs.len() == 11,
        IntoSystemSetConfigs::<O>::set_configs_view(&t)->configs[0] == t.0.set_configs_view(),
        IntoSystemSetConfigs::<O>::set_configs_view(&t)->configs[1] == t.1.set_configs_view(),
        IntoSystemSetConfigs::<O>::set_configs_view(&t)->configs[2] == t.2.set_configs_view(),
        IntoSystemSetConfigs::<O>::set_configs_view(&t)->configs[3] == t.3.set_configs_view(),
        IntoSystemSetConfigs::<O>::set_configs_view(&t)->configs[4] == t.4.set_configs_view(),
        IntoSystemSetConfigs::<O>::set_configs_view(&t)->configs[5] == t.5.set_configs_view(),
        IntoSystemSetConfigs::<O>::set_configs_view(&t)->configs[6] == t.6.set_configs_view(),
        IntoSystemSetConfigs::<O>::set_configs_view(&t)->configs[7] == t.7.set_configs_view(),
        IntoSystemSetConfigs::<O>::set_configs_view(&t)->configs[8] == t.8.set_configs_view(),
        IntoSystemSetConfigs::<O>::set_configs_view(&t)->configs[9] == t.9.set_configs_view(),
        IntoSystemSetConfigs::<O>::set_configs_view(&t)->configs[10] == t.10.set_configs_view(),
        IntoSystemSetConfigs::<O>::set_configs_view(&t)->collective_conditions.len() == 0,
        IntoSystemSetConfigs::<O>::set_configs_view(&t)->chained is Unchained,
{
}

/// A tuple of 12 system set configuration(s) converts into a collection whose
/// elements are the components' configurations in component order, with no
/// collective conditions and no chaining.
pub proof fn law_set_tuple_12_in_order<O, S0: IntoSystemSetConfigs<O>, S1: IntoSystemSetConfigs<O>, S2: IntoSystemSetConfigs<O>, S3: IntoSystemSetConfigs<O>, S4: IntoSystemSetConfigs<O>, S5: IntoSystemSetConfigs<O>, S6: IntoSystemSetConfigs<O>, S7: IntoSystemSetConfigs<O>, S8: IntoSystemSetConfigs<O>, S9: IntoSystemSetConfigs<O>, S10: IntoSystemSetConfigs<O>, S11: IntoSystemSetConfigs<O>>(t: (S0, S1, S2, S3, S4, S5, S6, S7, S8, S9, S10, S11, ))
    ensures
        IntoSystemSetConfigs::<O>::set_configs_view(&t) is Configs,
        IntoSystemSetConfigs::<O>::set_configs_view(&t)->configs.len() == 12,
        IntoSystemSetConfigs::<O>::set_configs_view(&t)->configs[0] == t.0.set_configs_view(),
        IntoSystemSetConfigs::<O>::set_configs_view(&t)->configs[1] == t.1.set_configs_view(),
        IntoSystemSetConfigs::<O>::set_configs_view(&t)->configs[2] == t.2.set_configs_view(),
        IntoSystemSetConfigs::<O>::set_configs_view(&t)->configs[3] == t.3.set_configs_view(),
        IntoSystemSetConfigs::<O>::set_configs_view(&t)->configs[4] == t.4.set_configs_view(),
        IntoSystemSetConfigs::<O>::set_configs_view(&t)->configs[5] == t.5.set_configs_view(),
        IntoSystemSetConfigs::<O>::set_configs_view(&t)->configs[6] == t.6.set_configs_view(),
        IntoSystemSetConfigs::<O>::set_configs_view(&t)->configs[7] == t.7.set_configs_view(),
        IntoSystemSetConfigs::<O>::set_configs_view(&t)->configs[8] == t.8.set_configs_view(),
        IntoSystemSetConfigs::<O>::set_configs_view(&t)->configs[9] == t.9.set_configs_view(),
        IntoSystemSetConfigs::<O>::set_configs_view(&t)->configs[10] == t.10.set_configs_view(),
        IntoSystemSetConfigs::<O>::set_configs_view(&t)->configs[11] == t.11.set_configs_view(),
        IntoSystemSetConfigs::<O>::set_configs_view(&t)->collective_conditions.len() == 0,
        IntoSystemSetConfigs::<O>::set_configs_view(&t)->chained is Unchained,
{
}

/// A tuple of 13 system set configuration(s) converts into a collection whose
/// elements are the components' configurations in component order, with no
/// collective conditions and no chaining.
pub proof fn law_set_tuple_13_in_order<O, S0: IntoSystemSetConfigs<O>, S1: IntoSystemSetConfigs<O>, S2: IntoSystemSetConfigs<O>, S3: IntoSystemSetConfigs<O>, S4: IntoSystemSetConfigs<O>, S5: IntoSystemSetConfigs<O>, S6: IntoSystemSetConfigs<O>, S7: IntoSystemSetConfigs<O>, S8: IntoSystemSetConfigs<O>, S9: IntoSystemSetConfigs<O>, S10: IntoSystemSetConfigs<O>, S11: IntoSystemSetConfigs<O>, S12: IntoSystemSetConfigs<O>>(t: (S0, S1, S2, S3, S4, S5, S6, S7, S8, S9, S10, S11, S12, ))
    ensures
        IntoSystemSetConfigs::<O>::set_configs_view(&t) is Configs,
        IntoSystemSetConfigs::<O>::set_configs_view(&t)->configs.len() == 13,
        IntoSystemSetConfigs::<O>::set_configs_view(&t)->configs[0] == t.0.set_configs_view(),
        IntoSystemSetConfigs::<O>::set_configs_view(&t)->configs[1] == t.1.set_configs_view(),
        IntoSystemSetConfigs::<O>::set_configs_view(&t)->configs[2] == t.2.set_configs_view(),
        IntoSystemSetConfigs::<O>::set_configs_view(&t)->configs[3] == t.3.set_configs_view(),
        IntoSystemSetConfigs::<O>::set_configs_view(&t)->configs[4] == t.4.set_configs_view(),
        IntoSystemSetConfigs::<O>::set_configs_view(&t)->configs[5] == t.5.set_configs_view(),
        IntoSystemSetConfigs::<O>::set_configs_view(&t)->configs[6] == t.6.set_configs_view(),
        IntoSystemSetConfigs::<O>::set_configs_view(&t)->configs[7] == t.7.set_configs_view(),
        IntoSystemSetConfigs::<O>::set_configs_view(&t)->configs[8] == t.8.set_configs_view(),
        IntoSystemSetConfigs::<O>::set_configs_view(&t)->configs[9] == t.9.set_configs_view(),
        IntoSystemSetConfigs::<O>::set_configs_view(&t)->configs[10] == t.10.set_configs_view(),
        IntoSystemSetConfigs::<O>::set_configs_view(&t)->configs[11] == t.11.set_configs_view(),
        IntoSystemSetConfigs::<O>::set_configs_view(&t)->configs[12] == t.12.set_configs_view(),
        IntoSystemSetConfigs::<O>::set_configs_view(&t)->collective_conditions.len() == 0,
        IntoSystemSetConfigs::<O>::set_configs_view(&t)->chained is Unchained,
{
}

/// A tuple of 14 system set configuration(s) converts into a collection whose
/// elements are the components' configurations in component order, with no
/// collective conditions and no chaining.
pub proof fn law_set_tuple_14_in_order<O, S0: IntoSystemSetConfigs<O>, S1: IntoSystemSetConfigs<O>, S2: IntoSystemSetConfigs<O>, S3: IntoSystemSetConfigs<O>, S4: IntoSystemSetConfigs<O>, S5: IntoSystemSetConfigs<O>, S6: IntoSystemSetConfigs<O>, S7: IntoSystemSetConfigs<O>, S8: IntoSystemSetConfigs<O>, S9: IntoSystemSetConfigs<O>, S10: IntoSystemSetConfigs<O>, S11: IntoSystemSetConfigs<O>, S12: IntoSystemSetConfigs<O>, S13: IntoSystemSetConfigs<O>>(t: (S0, S1, S2, S3, S4, S5, S6, S7, S8, S9, S10, S11, S12, S13, ))
    ensures
        IntoSystemSetConfigs::<O>::set_configs_view(&t) is Configs,
        IntoSystemSetConfigs::<O>::set_configs_view(&t)->configs.len() == 14,
        IntoSystemSetConfigs::<O>::set_configs_view(&t)->configs[0] == t.0.set_configs_view(),
        IntoSystemSetConfigs::<O>::set_configs_view(&t)->configs[1] == t.1.set_configs_view(),
        IntoSystemSetConfigs::<O>::set_configs_view(&t)->configs[2] == t.2.set_configs_view(),
        IntoSystemSetConfigs::<O>::set_configs_view(&t)->configs[3] == t.3.set_configs_view(),
        IntoSystemSetConfigs::<O>::set_configs_view(&t)->configs[4] == t.4.set_configs_view(),
        IntoSystemSetConfigs::<O>::set_configs_view(&t)->configs[5] == t.5.set_configs_view(),
        IntoSystemSetConfigs::<O>::set_configs_view(&t)->configs[6] == t.6.set_configs_view(),
        IntoSystemSetConfigs::<O>::set_configs_view(&t)->configs[7] == t.7.set_configs_view(),
        IntoSystemSetConfigs::<O>::set_configs_view(&t)->configs[8] == t.8.set_configs_view(),
        IntoSystemSetConfigs::<O>::set_configs_view(&t)->configs[9] == t.9.set_configs_view(),
        IntoSystemSetConfigs::<O>::set_configs_view(&t)->configs[10] == t.10.set_configs_view(),
        IntoSystemSetConfigs::<O>::set_configs_view(&t)->configs[11] == t.11.set_configs_view(),
        IntoSystemSetConfigs::<O>::set_configs_view(&t)->configs[12] == t.12.set_configs_view(),
        IntoSystemSetConfigs::<O>::set_configs_view(&t)->configs[13] == t.13.set_configs_view(),
        IntoSystemSetConfigs::<O>::set_configs_view(&t)->collective_conditions.len() == 0,
        IntoSystemSetConfigs::<O>::set_configs_view(&t)->chained is Unchained,
{
}

/// A tuple of 15 system set configuration(s) converts into a collection whose
/// elements are the components' configurations in component order, with no
/// collective conditions and no chaining.
pub proof fn law_set_tuple_15_in_order<O, S0: IntoSystemSetConfigs<O>, S1: IntoSystemSetConfigs<O>, S2: IntoSystemSetConfigs<O>, S3: IntoSystemSetConfigs<O>, S4: IntoSystemSetConfigs<O>, S5: IntoSystemSetConfigs<O>, S6: IntoSystemSetConfigs<O>, S7: IntoSystemSetConfigs<O>, S8: IntoSystemSetConfigs<O>, S9: IntoSystemSetConfigs<O>, S10: IntoSystemSetConfigs<O>, S11: IntoSystemSetConfigs<O>, S12: IntoSystemSetConfigs<O>, S13: IntoSystemSetConfigs<O>, S14: IntoSystemSetConfigs<O>>(t: (S0, S1, S2, S3, S4, S5, S6, S7, S8, S9, S10, S11, S12, S13, S14, ))
    ensures
        IntoSystemSetConfigs::<O>::set_configs_view(&t) is Configs,
        IntoSystemSetConfigs::<O>::set_configs_view(&t)->configs.len() == 15,
        IntoSystemSetConfigs::<O>::set_configs_view(&t)->configs[0] == t.0.set_configs_view(),
        IntoSystemSetConfigs::<O>::set_configs_view(&t)->configs[1] == t.1.set_configs_view(),
        IntoSystemSetConfigs::<O>::set_configs_view(&t)->configs[2] == t.2.set_configs_view(),
        IntoSystemSetConfigs::<O>::set_configs_view(&t)->configs[3] == t.3.set_configs_view(),
        IntoSystemSetConfigs::<O>::set_configs_view(&t)->configs[4] == t.4.set_configs_view(),
        IntoSystemSetConfigs::<O>::set_configs_view(&t)->configs[5] == t.5.set_configs_view(),
        IntoSystemSetConfigs::<O>::set_configs_view(&t)->configs[6] == t.6.set_configs_view(),
        IntoSystemSetConfigs::<O>::set_configs_view(&t)->configs[7] == t.7.set_configs_view(),
        IntoSystemSetConfigs::<O>::set_configs_view(&t)->configs[8] == t.8.set_configs_view(),
        IntoSystemSetConfigs::<O>::set_configs_view(&t)->configs[9] == t.9.set_configs_view(),
        IntoSystemSetConfigs::<O>::set_configs_view(&t)->configs[10] == t.10.set_configs_view(),
        IntoSystemSetConfigs::<O>::set_configs_view(&t)->configs[11] == t.11.set_configs_view(),
        IntoSystemSetConfigs::<O>::set_configs_view(&t)->configs[12] == t.12.set_configs_view(),
        IntoSystemSetConfigs::<O>::set_configs_view(&t)->configs[13] == t.13.set_configs_view(),
        IntoSystemSetConfigs::<O>::set_configs_view(&t)->configs[14] == t.14.set_configs_view(),
        IntoSystemSetConfigs::<O>::set_configs_view(&t)->collective_conditions.len() == 0,
        IntoSystemSetConfigs::<O>::set_configs_view(&t)->chained is Unchained,
{
}

/// A tuple of 16 system set configuration(s) converts into a collection whose
/// elements are the components' configurations in component order, with no
/// collective conditions and no chaining.
pub proof fn law_set_tuple_16_in_order<O, S0: IntoSystemSetConfigs<O>, S1: IntoSystemSetConfigs<O>, S2: IntoSystemSetConfigs<O>, S3: IntoSystemSetConfigs<O>, S4: IntoSystemSetConfigs<O>, S5: IntoSystemSetConfigs<O>, S6: IntoSystemSetConfigs<O>, S7: IntoSystemSetConfigs<O>, S8: IntoSystemSetConfigs<O>, S9: IntoSystemSetConfigs<O>, S10: IntoSystemSetConfigs<O>, S11: IntoSystemSetConfigs<O>, S12: IntoSystemSetConfigs<O>, S13: IntoSystemSetConfigs<O>, S14: IntoSystemSetConfigs<O>, S15: IntoSystemSetConfigs<O>>(t: (S0, S1, S2, S3, S4, S5, S6, S7, S8, S9, S10, S11, S12, S13, S14, S15, ))
    ensures
        IntoSystemSetConfigs::<O>::set_configs_view(&t) is Configs,
        IntoSystemSetConfigs::<O>::set_configs_view(&t)->configs.len() == 16,
        IntoSystemSetConfigs::<O>::set_configs_view(&t)->configs[0] == t.0.set_configs_view(),
        IntoSystemSetConfigs::<O>::set_configs_view(&t)->configs[1] == t.1.set_configs_view(),
        IntoSystemSetConfigs::<O>::set_configs_view(&t)->configs[2] == t.2.set_configs_view(),
        IntoSystemSetConfigs::<O>::set_configs_view(&t)->configs[3] == t.3.set_configs_view(),
        IntoSystemSetConfigs::<O>::set_configs_view(&t)->configs[4] == t.4.set_configs_view(),
        IntoSystemSetConfigs::<O>::set_configs_view(&t)->configs[5] == t.5.set_configs_view(),
        IntoSystemSetConfigs::<O>::set_configs_view(&t)->configs[6] == t.6.set_configs_view(),
        IntoSystemSetConfigs::<O>::set_configs_view(&t)->configs[7] == t.7.set_configs_view(),
        IntoSystemSetConfigs::<O>::set_configs_view(&t)->configs[8] == t.8.set_configs_view(),
        IntoSystemSetConfigs::<O>::set_configs_view(&t)->configs[9] == t.9.set_configs_view(),
        IntoSystemSetConfigs::<O>::set_configs_view(&t)->configs[10] == t.10.set_configs_view(),
        IntoSystemSetConfigs::<O>::set_configs_view(&t)->configs[11] == t.11.set_configs_view(),
        IntoSystemSetConfigs::<O>::set_configs_view(&t)->configs[12] == t.12.set_configs_view(),
        IntoSystemSetConfigs::<O>::set_configs_view(&t)->configs[13] == t.13.set_configs_view(),
        IntoSystemSetConfigs::<O>::set_configs_view(&t)->configs[14] == t.14.set_configs_view(),
        IntoSystemSetConfigs::<O>::set_configs_view(&t)->configs[15] == t.15.set_configs_view(),
        IntoSystemSetConfigs::<O>::set_configs_view(&t)->collective_conditions.len() == 0,
        IntoSystemSetConfigs::<O>::set_configs_view(&t)->chained is Unchained,
{
}

/// A tuple of 17 system set configuration(s) converts into a collection whose
/// elements are the components' configurations in component order, with no
/// collective conditions and no chaining.
pub proof fn law_set_tuple_17_in_order<O, S0: IntoSystemSetConfigs<O>, S1: IntoSystemSetConfigs<O>, S2: IntoSystemSetConfigs<O>, S3: IntoSystemSetConfigs<O>, S4: IntoSystemSetConfigs<O>, S5: IntoSystemSetConfigs<O>, S6: IntoSystemSetConfigs<O>, S7: IntoSystemSetConfigs<O>, S8: IntoSystemSetConfigs<O>, S9: IntoSystemSetConfigs<O>, S10: IntoSystemSetConfigs<O>, S11: IntoSystemSetConfigs<O>, S12: IntoSystemSetConfigs<O>, S13: IntoSystemSetConfigs<O>, S14: IntoSystemSetConfigs<O>, S15: IntoSystemSetConfigs<O>, S16: IntoSystemSetConfigs<O>>(t: (S0, S1, S2, S3, S4, S5, S6, S7, S8, S9, S10, S11, S12, S13, S14, S15, S16, ))
    ensures
        IntoSystemSetConfigs::<O>::set_configs_view(&t) is Configs,
        IntoSystemSetConfigs::<O>::set_configs_view(&t)->configs.len() == 17,
        IntoSystemSetConfigs::<O>::set_configs_view(&t)->configs[0] == t.0.set_configs_view(),
        IntoSystemSetConfigs::<O>::set_configs_view(&t)->configs[1] == t.1.set_configs_view(),
        IntoSystemSetConfigs::<O>::set_configs_view(&t)->configs[2] == t.2.set_configs_view(),
        IntoSystemSetConfigs::<O>::set_configs_view(&t)->configs[3] == t.3.set_configs_view(),
        IntoSystemSetConfigs::<O>::set_configs_view(&t)->configs[4] == t.4.set_configs_view(),
        IntoSystemSetConfigs::<O>::set_configs_view(&t)->configs[5] == t.5.set_configs_view(),
        IntoSystemSetConfigs::<O>::set_configs_view(&t)->configs[6] == t.6.set_configs_view(),
        IntoSystemSetConfigs::<O>::set_configs_view(&t)->configs[7] == t.7.set_configs_view(),
        IntoSystemSetConfigs::<O>::set_configs_view(&t)->configs[8] == t.8.set_configs_view(),
        IntoSystemSetConfigs::<O>::set_configs_view(&t)->configs[9] == t.9.set_configs_view(),
        IntoSystemSetConfigs::<O>::set_configs_view(&t)->configs[10] == t.10.set_configs_view(),
        IntoSystemSetConfigs::<O>::set_configs_view(&t)->configs[11] == t.11.set_configs_view(),
        IntoSystemSetConfigs::<O>::set_configs_view(&t)->configs[12] == t.12.set_configs_view(),
        IntoSystemSetConfigs::<O>::set_configs_view(&t)->configs[13] == t.13.set_configs_view(),
        IntoSystemSetConfigs::<O>::set_configs_view(&t)->configs[14] == t.14.set_configs_view(),
        IntoSystemSetConfigs::<O>::set_configs_view(&t)->configs[15] == t.15.set_configs_view(),
        IntoSystemSetConfigs::<O>::set_configs_view(&t)->configs[16] == t.16.set_configs_view(),
        IntoSystemSetConfigs::<O>::set_configs_view(&t)->collective_conditions.len() == 0,
        IntoSystemSetConfigs::<O>::set_configs_view(&t)->chained is Unchained,
{
}

/// A tuple of 18 system set configuration(s) converts into a collection whose
/// elements are the components' configurations in component order, with no
/// collective conditions and no chaining.
pub proof fn law_set_tuple_18_in_order<O, S0: IntoSystemSetConfigs<O>, S1: IntoSystemSetConfigs<O>, S2: IntoSystemSetConfigs<O>, S3: IntoSystemSetConfigs<O>, S4: IntoSystemSetConfigs<O>, S5: IntoSystemSetConfigs<O>, S6: IntoSystemSetConfigs<O>, S7: IntoSystemSetConfigs<O>, S8: IntoSystemSetConfigs<O>, S9: IntoSystemSetConfigs<O>, S10: IntoSystemSetConfigs<O>, S11: IntoSystemSetConfigs<O>, S12: IntoSystemSetConfigs<O>, S13: IntoSystemSetConfigs<O>, S14: IntoSystemSetConfigs<O>, S15: IntoSystemSetConfigs<O>, S16: IntoSystemSetConfigs<O>, S17: IntoSystemSetConfigs<O>>(t: (S0, S1, S2, S3, S4, S5, S6, S7, S8, S9, S10, S11, S12, S13, S14, S15, S16, S17, ))
    ensures
        IntoSystemSetConfigs::<O>::set_configs_view(&t) is Configs,
        IntoSystemSetConfigs::<O>::set_configs_view(&t)->configs.len() == 18,
        IntoSystemSetConfigs::<O>::set_configs_view(&t)->configs[0] == t.0.set_configs_view(),
        IntoSystemSetConfigs::<O>::set_configs_view(&t)->configs[1] == t.1.set_configs_view(),
        IntoSystemSetConfigs::<O>::set_configs_view(&t)->configs[2] == t.2.set_configs_view(),
        IntoSystemSetConfigs::<O>::set_configs_view(&t)->configs[3] == t.3.set_configs_view(),
        IntoSystemSetConfigs::<O>::set_configs_view(&t)->configs[4] == t.4.set_configs_view(),
        IntoSystemSetConfigs::<O>::set_configs_view(&t)->configs[5] == t.5.set_configs_view(),
        IntoSystemSetConfigs::<O>::set_configs_view(&t)->configs[6] == t.6.set_configs_view(),
        IntoSystemSetConfigs::<O>::set_configs_view(&t)->configs[7] == t.7.set_configs_view(),
        IntoSystemSetConfigs::<O>::set_configs_view(&t)->configs[8] == t.8.set_configs_view(),
        IntoSystemSetConfigs::<O>::set_configs_view(&t)->configs[9] == t.9.set_configs_view(),
        IntoSystemSetConfigs::<O>::set_configs_view(&t)->configs[10] == t.10.set_configs_view(),
        IntoSystemSetConfigs::<O>::set_configs_view(&t)->configs[11] == t.11.set_configs_view(),
        IntoSystemSetConfigs::<O>::set_configs_view(&t)->configs[12] == t.12.set_configs_view(),
        IntoSystemSetConfigs::<O>::set_configs_view(&t)->configs[13] == t.13.set_configs_view(),
        IntoSystemSetConfigs::<O>::set_configs_view(&t)->configs[14] == t.14.set_configs_view(),
        IntoSystemSetConfigs::<O>::set_configs_view(&t)->configs[15] == t.15.set_configs_view(),
        IntoSystemSetConfigs::<O>::set_configs_view(&t)->configs[16] == t.16.set_configs_view(),
        IntoSystemSetConfigs::<O>::set_configs_view(&t)->configs[17] == t.17.set_configs_view(),
        IntoSystemSetConfigs::<O>::set_configs_view(&t)->collective_conditions.len() == 0,
        IntoSystemSetConfigs::<O>::set_configs_view(&t)->chained is Unchained,
{
}

/// A tuple of 19 system set configuration(s) converts into a collection whose
/// elements are the components' configurations in component order, with no
/// collective conditions and no chaining.
pub proof fn law_set_tuple_19_in_order<O, S0: IntoSystemSetConfigs<O>, S1: IntoSystemSetConfigs<O>, S2: IntoSystemSetConfigs<O>, S3: IntoSystemSetConfigs<O>, S4: IntoSystemSetConfigs<O>, S5: IntoSystemSetConfigs<O>, S6: IntoSystemSetConfigs<O>, S7: IntoSystemSetConfigs<O>, S8: IntoSystemSetConfigs<O>, S9: IntoSystemSetConfigs<O>, S10: IntoSystemSetConfigs<O>, S11: IntoSystemSetConfigs<O>, S12: IntoSystemSetConfigs<O>, S13: IntoSystemSetConfigs<O>, S14: IntoSystemSetConfigs<O>, S15: IntoSystemSetConfigs<O>, S16: IntoSystemSetConfigs<O>, S17: IntoSystemSetConfigs<O>, S18: IntoSystemSetConfigs<O>>(t: (S0, S1, S2, S3, S4, S5, S6, S7, S8, S9, S10, S11, S12, S13, S14, S15, S16, S17, S18, ))
    ensures
        IntoSystemSetConfigs::<O>::set_configs_view(&t) is Configs,
        IntoSystemSetConfigs::<O>::set_configs_view(&t)->configs.len() == 19,
        IntoSystemSetConfigs::<O>::set_configs_view(&t)->configs[0] == t.0.set_configs_view(),
        IntoSystemSetConfigs::<O>::set_configs_view(&t)->configs[1] == t.1.set_configs_view(),
        IntoSystemSetConfigs::<O>::set_configs_view(&t)->configs[2] == t.2.set_configs_view(),
        IntoSystemSetConfigs::<O>::set_configs_view(&t)->configs[3] == t.3.set_configs_view(),
        IntoSystemSetConfigs::<O>::set_configs_view(&t)->configs[4] == t.4.set_configs_view(),
        IntoSystemSetConfigs::<O>::set_configs_view(&t)->configs[5] == t.5.set_configs_view(),
        IntoSystemSetConfigs::<O>::set_configs_view(&t)->configs[6] == t.6.set_configs_view(),
        IntoSystemSetConfigs::<O>::set_configs_view(&t)->configs[7] == t.7.set_configs_view(),
        IntoSystemSetConfigs::<O>::set_configs_view(&t)->configs[8] == t.8.set_configs_view(),
        IntoSystemSetConfigs::<O>::set_configs_view(&t)->configs[9] == t.9.set_configs_view(),
        IntoSystemSetConfigs::<O>::set_configs_view(&t)->configs[10] == t.10.set_configs_view(),
        IntoSystemSetConfigs::<O>::set_configs_view(&t)->configs[11] == t.11.set_configs_view(),
        IntoSystemSetConfigs::<O>::set_configs_view(&t)->configs[12] == t.12.set_configs_view(),
        IntoSystemSetConfigs::<O>::set_configs_view(&t)->configs[13] == t.13.set_configs_view(),
        IntoSystemSetConfigs::<O>::set_configs_view(&t)->configs[14] == t.14.set_configs_view(),
        IntoSystemSetConfigs::<O>::set_configs_view(&t)->configs[15] == t.15.set_configs_view(),
        IntoSystemSetConfigs::<O>::set_configs_view(&t)->configs[16] == t.16.set_configs_view(),
        IntoSystemSetConfigs::<O>::set_configs_view(&t)->configs[17] == t.17.set_configs_view(),
        IntoSystemSetConfigs::<O>::set_configs_view(&t)->configs[18] == t.18.set_configs_view(),
        IntoSystemSetConfigs::<O>::set_configs_view(&t)->collective_conditions.len() == 0,
        IntoSystemSetConfigs::<O>::set_configs_view(&t)->chained is Unchained,
{
}

/// A tuple of 20 system set configuration(s) converts into a collection whose
/// elements are the components' configurations in component order, with no
/// collective conditions and no chaining.
pub proof fn law_set_tuple_20_in_order<O, S0: IntoSystemSetConfigs<O>, S1: IntoSystemSetConfigs<O>, S2: IntoSystemSetConfigs<O>, S3: IntoSystemSetConfigs<O>, S4: IntoSystemSetConfigs<O>, S5: IntoSystemSetConfigs<O>, S6: IntoSystemSetConfigs<O>, S7: IntoSystemSetConfigs<O>, S8: IntoSystemSetConfigs<O>, S9: IntoSystemSetConfigs<O>, S10: IntoSystemSetConfigs<O>, S11: IntoSystemSetConfigs<O>, S12: IntoSystemSetConfigs<O>, S13: IntoSystemSetConfigs<O>, S14: IntoSystemSetConfigs<O>, S15: IntoSystemSetConfigs<O>, S16: IntoSystemSetConfigs<O>, S17: IntoSystemSetConfigs<O>, S18: IntoSystemSetConfigs<O>, S19: IntoSystemSetConfigs<O>>(t: (S0, S1, S2, S3, S4, S5, S6, S7, S8, S9, S10, S11, S12, S13, S14, S15, S16, S17, S18, S19, ))
    ensures
        IntoSystemSetConfigs::<O>::set_configs_view(&t) is Configs,
        IntoSystemSetConfigs::<O>::set_configs_view(&t)->configs.len() == 20,
        IntoSystemSetConfigs::<O>::set_configs_view(&t)->configs[0] == t.0.set_configs_view(),
        IntoSystemSetConfigs::<O>::set_configs_view(&t)->configs[1] == t.1.set_configs_view(),
        IntoSystemSetConfigs::<O>::set_configs_view(&t)->configs[2] == t.2.set_configs_view(),
        IntoSystemSetConfigs::<O>::set_configs_view(&t)->configs[3] == t.3.set_configs_view(),
        IntoSystemSetConfigs::<O>::set_configs_view(&t)->configs[4] == t.4.set_configs_view(),
        IntoSystemSetConfigs::<O>::set_configs_view(&t)->configs[5] == t.5.set_configs_view(),
        IntoSystemSetConfigs::<O>::set_configs_view(&t)->configs[6] == t.6.set_configs_view(),
        IntoSystemSetConfigs::<O>::set_configs_view(&t)->configs[7] == t.7.set_configs_view(),
        IntoSystemSetConfigs::<O>::set_configs_view(&t)->configs[8] == t.8.set_configs_view(),
        IntoSystemSetConfigs::<O>::set_configs_view(&t)->configs[9] == t.9.set_configs_view(),
        IntoSystemSetConfigs::<O>::set_configs_view(&t)->configs[10] == t.10.set_configs_view(),
        IntoSystemSetConfigs::<O>::set_configs_view(&t)->configs[11] == t.11.set_configs_view(),
        IntoSystemSetConfigs::<O>::set_configs_view(&t)->configs[12] == t.12.set_configs_view(),
        IntoSystemSetConfigs::<O>::set_configs_view(&t)->configs[13] == t.13.set_configs_view(),
        IntoSystemSetConfigs::<O>::set_configs_view(&t)->configs[14] == t.14.set_configs_view(),
        IntoSystemSetConfigs::<O>::set_configs_view(&t)->configs[15] == t.15.set_configs_view(),
        IntoSystemSetConfigs::<O>::set_configs_view(&t)->configs[16] == t.16.set_configs_view(),
        IntoSystemSetConfigs::<O>::set_configs_view(&t)->configs[17] == t.17.set_configs_view(),
        IntoSystemSetConfigs::<O>::set_configs_view(&t)->configs[18] == t.18.set_configs_view(),
        IntoSystemSetConfigs::<O>::set_configs_view(&t)->configs[19] == t.19.set_configs_view(),
        IntoSystemSetConfigs::<O>::set_configs_view(&t)->collective_conditions.len() == 0,
        IntoSystemSetConfigs::<O>::set_configs_view(&t)->chained is Unchained,
{
}

} // verus!
